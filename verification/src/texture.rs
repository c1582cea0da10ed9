//! Texture identity types: logical texture ids, source sub-rectangles
//! within a loaded texture, and destination rectangles in screen space.

use vstd::prelude::*;

verus! {

/// Logical texture identity, used to look a texture up at draw time.
#[derive(Debug, Clone, PartialEq, Eq, Hash)]
pub struct TextureId {
    pub texture_id: String,
}

/// Width, height and offsets into the source texture.
#[derive(Debug, Copy, Clone, PartialEq, Eq, Structural)]
pub struct SourcePixelRegion {
    pub bottom_x: u32,
    pub bottom_y: u32,
    pub width: u32,
    pub height: u32,
}

/// Where the texture region should be drawn on the screen.
#[derive(Debug, Copy, Clone, PartialEq, Eq, Structural)]
pub struct TargetPixelRegion {
    pub screen_bottom_x: u32,
    pub screen_bottom_y: u32,
    pub screen_width: u32,
    pub screen_height: u32,
}

/// A sub-rectangle of a named texture.
#[derive(Debug, Clone, PartialEq, Eq)]
pub struct SourceTextureRegion {
    /// Texture id for looking the texture up at runtime.
    pub texture_id: TextureId,
    /// Region of the texture that should be drawn.
    pub region: SourcePixelRegion,
}

/// One textured-quad draw: a source region placed at a target region.
/// Constructed fresh for each draw call, never persisted.
#[derive(Debug, Clone, PartialEq, Eq)]
pub struct TextureInstanceId {
    pub source_texture_region: SourceTextureRegion,
    pub target_texture_region: TargetPixelRegion,
}

/// Magnification filtering for a textured-quad draw.
#[derive(Debug, Copy, Clone, PartialEq, Eq, Structural)]
pub enum TextureDrawOptions {
    PixelPerfect,
    InterpolateTexture,
}

impl Default for TextureDrawOptions {
    fn default() -> (r: Self)
        ensures
            r == TextureDrawOptions::InterpolateTexture,
    {
        TextureDrawOptions::InterpolateTexture
    }
}

/// One decoded texture: its id, its pixel dimensions, and its raw RGBA
/// bytes, ready for the renderer to upload.
pub struct TextureEntry {
    pub id: TextureId,
    pub width: u32,
    pub height: u32,
    pub pixels: Vec<u8>,
}

/// An entry's pixel buffer matches its dimensions: four bytes per pixel.
pub open spec fn texture_entry_wf(e: TextureEntry) -> bool {
    e.pixels@.len() == 4 * e.width * e.height
}

/// Index of the first entry with the given id, if any.
pub open spec fn texture_index(s: Seq<TextureEntry>, id: Seq<char>) -> Option<int>
    decreases s.len(),
{
    if s.len() == 0 {
        None
    } else if s[0].id.texture_id@ == id {
        Some(0int)
    } else {
        match texture_index(s.drop_first(), id) {
            Some(i) => Some(i + 1),
            None => None,
        }
    }
}

pub proof fn lemma_texture_index_at(s: Seq<TextureEntry>, id: Seq<char>, i: int)
    requires
        0 <= i < s.len(),
        s[i].id.texture_id@ == id,
        forall|j: int| 0 <= j < i ==> #[trigger] s[j].id.texture_id@ != id,
    ensures
        texture_index(s, id) == Some(i),
    decreases s.len(),
{
    if i > 0 {
        lemma_texture_index_at(s.drop_first(), id, i - 1);
    }
}

pub proof fn lemma_texture_index_absent(s: Seq<TextureEntry>, id: Seq<char>)
    requires
        forall|j: int| 0 <= j < s.len() ==> #[trigger] s[j].id.texture_id@ != id,
    ensures
        texture_index(s, id) is None,
    decreases s.len(),
{
    if s.len() > 0 {
        lemma_texture_index_absent(s.drop_first(), id);
    }
}

/// The decoded textures, keyed by logical id. Populated once at startup;
/// a second registration under the same id is rejected.
pub struct TextureSystem {
    pub textures: Vec<TextureEntry>,
}

/// The decoded form of a PNG byte buffer: its pixel dimensions and raw
/// RGBA bytes, or `None` when the buffer is not a valid PNG image. The
/// decoder's output depends on the bytes alone, so it carries a name
/// rather than a page-long statement.
pub uninterp spec fn png_rgba_of(data: Seq<u8>) -> Option<(u32, u32, Seq<u8>)>;

/// Relies on image's `load_from_memory_with_format` with the PNG format,
/// and on the RGBA conversion of the decoded image: the call returns
/// `png_rgba_of` of the bytes, and the raw buffer of a `width` by
/// `height` RGBA image holds exactly `4 * width * height` bytes
/// (the buffer is allocated at that size). Returns `None` exactly when
/// the bytes are not a valid PNG image.
#[verifier::external_body]
fn decode_png_rgba(data: &[u8]) -> (r: Option<(u32, u32, Vec<u8>)>)
    ensures
        (r is Some) == (png_rgba_of(data@) is Some),
        r matches Some((w, h, pixels)) ==> {
            &&& pixels@.len() == 4 * w * h
            &&& png_rgba_of(data@) == Some((w, h, pixels@))
        },
{
    match image::load_from_memory_with_format(data, image::ImageFormat::Png) {
        Ok(img) => {
            let rgba = img.to_rgba8();
            let (w, h) = rgba.dimensions();
            Some((w, h, rgba.into_raw()))
        },
        Err(_) => None,
    }
}

impl TextureSystem {
    /// Every entry's buffer matches its dimensions and ids are distinct.
    pub open spec fn wf(self) -> bool {
        &&& forall|i: int|
            0 <= i < self.textures@.len() ==> texture_entry_wf(#[trigger] self.textures@[i])
        &&& forall|i: int, j: int|
            0 <= i < j < self.textures@.len() ==> #[trigger] self.textures@[i].id.texture_id@
                != #[trigger] self.textures@[j].id.texture_id@
    }

    /// An empty texture system.
    pub fn new() -> (r: Self)
        ensures
            r.textures@ =~= Seq::<TextureEntry>::empty(),
            r.wf(),
    {
        Self { textures: Vec::new() }
    }

    /// Index of the first entry registered under the id, if any.
    fn find_index(&self, id: &str) -> (r: Option<usize>)
        ensures
            match r {
                Some(i) => i < self.textures@.len() && self.textures@[i as int].id.texture_id@
                    == id@ && forall|j: int|
                    0 <= j < i ==> #[trigger] self.textures@[j].id.texture_id@ != id@,
                None => forall|j: int|
                    0 <= j < self.textures@.len() ==> #[trigger] self.textures@[j].id.texture_id@
                        != id@,
            },
    {
        let id_owned: String = id.to_owned();
        let mut i: usize = 0;
        while i < self.textures.len()
            invariant
                id_owned@ == id@,
                0 <= i <= self.textures.len(),
                forall|j: int| 0 <= j < i ==> #[trigger] self.textures@[j].id.texture_id@ != id@,
            decreases self.textures.len() - i,
        {
            if self.textures[i].id.texture_id == id_owned {
                return Some(i);
            }
            i = i + 1;
        }
        None
    }

    /// Registers an already decoded RGBA image under an id. Succeeds
    /// exactly when the id is not yet registered and the buffer matches
    /// the dimensions; on success the entry is appended as given.
    pub fn register_decoded_texture(
        &mut self,
        id: &str,
        width: u32,
        height: u32,
        pixels: Vec<u8>,
    ) -> (r: Result<TextureId, crate::errors::Error>)
        requires
            old(self).wf(),
            pixels@.len() == 4 * width * height,
        ensures
            final(self).wf(),
            r matches Ok(tid) ==> {
                &&& tid.texture_id@ == id@
                &&& texture_index(old(self).textures@, id@) is None
                &&& final(self).textures@.len() == old(self).textures@.len() + 1
                &&& final(self).textures@.subrange(0, old(self).textures@.len() as int) == old(
                    self,
                ).textures@
                &&& final(self).textures@.last().id.texture_id@ == id@
                &&& final(self).textures@.last().width == width
                &&& final(self).textures@.last().height == height
                &&& final(self).textures@.last().pixels == pixels
            },
            r is Err ==> final(self).textures@ == old(self).textures@ && texture_index(
                old(self).textures@,
                id@,
            ) is Some,
            (r is Ok) == (texture_index(old(self).textures@, id@) is None),
    {
        match self.find_index(id) {
            Some(i) => {
                proof {
                    lemma_texture_index_at(self.textures@, id@, i as int);
                }
                Err(crate::errors::Error {})
            },
            None => {
                proof {
                    lemma_texture_index_absent(self.textures@, id@);
                }
                let ghost old_entries = self.textures@;
                let tid = TextureId { texture_id: id.to_owned() };
                let entry = TextureEntry {
                    id: TextureId { texture_id: id.to_owned() },
                    width,
                    height,
                    pixels,
                };
                self.textures.push(entry);
                proof {
                    assert(self.textures@.subrange(0, old_entries.len() as int) =~= old_entries);
                    assert forall|a: int, b: int|
                        0 <= a < b < self.textures@.len() implies #[trigger] self.textures@[a].id.texture_id@
                        != #[trigger] self.textures@[b].id.texture_id@ by {
                        if b < old_entries.len() {
                            assert(self.textures@[a] == old_entries[a]);
                            assert(self.textures@[b] == old_entries[b]);
                        } else {
                            assert(self.textures@[a] == old_entries[a]);
                        }
                    }
                    assert forall|a: int|
                        0 <= a < self.textures@.len() implies texture_entry_wf(
                        #[trigger] self.textures@[a],
                    ) by {
                        if a < old_entries.len() {
                            assert(self.textures@[a] == old_entries[a]);
                        }
                    }
                }
                Ok(tid)
            },
        }
    }

    /// Decodes a PNG byte buffer and registers it under an id. Succeeds
    /// exactly when the bytes decode and the id is fresh; on success the
    /// decoded RGBA image is stored as the new last entry and the new id
    /// returned.
    pub fn add_png_texture(&mut self, id: &str, data: &[u8]) -> (r: Result<
        TextureId,
        crate::errors::Error,
    >)
        requires
            old(self).wf(),
        ensures
            final(self).wf(),
            (r is Ok) == (png_rgba_of(data@) is Some && texture_index(
                old(self).textures@,
                id@,
            ) is None),
            r matches Ok(tid) ==> {
                &&& tid.texture_id@ == id@
                &&& final(self).textures@.len() == old(self).textures@.len() + 1
                &&& final(self).textures@.subrange(0, old(self).textures@.len() as int) == old(
                    self,
                ).textures@
                &&& final(self).textures@.last().id.texture_id@ == id@
                &&& (png_rgba_of(data@) matches Some((w, h, p)) && {
                    &&& final(self).textures@.last().width == w
                    &&& final(self).textures@.last().height == h
                    &&& final(self).textures@.last().pixels@ == p
                })
            },
            r is Err ==> final(self).textures@ == old(self).textures@,
    {
        match decode_png_rgba(data) {
            Some((width, height, pixels)) => self.register_decoded_texture(
                id,
                width,
                height,
                pixels,
            ),
            None => Err(crate::errors::Error {}),
        }
    }


    /// The entry registered under an id, or `None` when the id was never
    /// registered — a startup-time configuration bug that the caller must
    /// treat as fatal.
    pub fn get_texture(&self, id: &str) -> (r: Option<&TextureEntry>)
        ensures
            match r {
                Some(e) => texture_index(self.textures@, id@) matches Some(i) && *e
                    == self.textures@[i],
                None => texture_index(self.textures@, id@) is None,
            },
    {
        match self.find_index(id) {
            Some(i) => {
                proof {
                    lemma_texture_index_at(self.textures@, id@, i as int);
                }
                Some(&self.textures[i])
            },
            None => {
                proof {
                    lemma_texture_index_absent(self.textures@, id@);
                }
                None
            },
        }
    }
}

} // verus!
