//! Font identity and text placement data.

use vstd::prelude::*;

verus! {

/// A font instance: one family rendered at one point size. Created once
/// per distinct size at startup and immutable afterward; serves as the
/// cache key for the rasterized font.
#[derive(Debug, Clone, PartialEq, Eq, Hash)]
pub struct FontInstanceId {
    pub font_name: String,
    pub font_size: u32,
}

/// A piece of text to draw: which font, what text, and where on screen.
#[derive(Debug, Copy, Clone)]
pub struct Text<'a> {
    pub font: &'a FontInstanceId,
    /// The text that should be displayed.
    pub text: &'a str,
    /// X and Y position of the text.
    pub screen_x: u32,
    pub screen_y: u32,
}

impl<'a> Text<'a> {
    pub fn new(font: &'a FontInstanceId, text: &'a str, x: u32, y: u32) -> (t: Self)
        ensures
            t.font == font,
            t.text@ == text@,
            t.screen_x == x,
            t.screen_y == y,
    {
        Self { font, text, screen_x: x, screen_y: y }
    }
}

/// Index of the first instance with the given family and size, if any.
pub open spec fn font_index(s: Seq<FontInstanceId>, name: Seq<char>, size: u32) -> Option<int>
    decreases s.len(),
{
    if s.len() == 0 {
        None
    } else if s[0].font_name@ == name && s[0].font_size == size {
        Some(0int)
    } else {
        match font_index(s.drop_first(), name, size) {
            Some(i) => Some(i + 1),
            None => None,
        }
    }
}

pub proof fn lemma_font_index_at(s: Seq<FontInstanceId>, name: Seq<char>, size: u32, i: int)
    requires
        0 <= i < s.len(),
        s[i].font_name@ == name && s[i].font_size == size,
        forall|j: int|
            0 <= j < i ==> !(#[trigger] s[j].font_name@ == name && s[j].font_size == size),
    ensures
        font_index(s, name, size) == Some(i),
    decreases s.len(),
{
    if i > 0 {
        lemma_font_index_at(s.drop_first(), name, size, i - 1);
    }
}

pub proof fn lemma_font_index_absent(s: Seq<FontInstanceId>, name: Seq<char>, size: u32)
    requires
        forall|j: int|
            0 <= j < s.len() ==> !(#[trigger] s[j].font_name@ == name && s[j].font_size == size),
    ensures
        font_index(s, name, size) is None,
    decreases s.len(),
{
    if s.len() > 0 {
        lemma_font_index_absent(s.drop_first(), name, size);
    }
}

/// The font instances rendered at startup, keyed by family and size.
/// Each (family, size) pair is registered at most once; the rasterized
/// font data itself lives with the renderer, keyed by the same instance.
pub struct FontSystem {
    pub fonts: Vec<FontInstanceId>,
}

impl FontSystem {
    /// No (family, size) pair occurs twice.
    pub open spec fn wf(self) -> bool {
        forall|i: int, j: int|
            0 <= i < j < self.fonts@.len() ==> !(#[trigger] self.fonts@[i].font_name@
                == #[trigger] self.fonts@[j].font_name@ && self.fonts@[i].font_size
                == self.fonts@[j].font_size)
    }

    /// An empty font system.
    pub fn new() -> (r: Self)
        ensures
            r.fonts@ =~= Seq::<FontInstanceId>::empty(),
            r.wf(),
    {
        Self { fonts: Vec::new() }
    }

    /// Index of the first instance with the pair, if any.
    fn find_index(&self, id: &str, size: u32) -> (r: Option<usize>)
        ensures
            match r {
                Some(i) => i < self.fonts@.len() && self.fonts@[i as int].font_name@ == id@
                    && self.fonts@[i as int].font_size == size && forall|j: int|
                    0 <= j < i ==> !(#[trigger] self.fonts@[j].font_name@ == id@
                        && self.fonts@[j].font_size == size),
                None => forall|j: int|
                    0 <= j < self.fonts@.len() ==> !(#[trigger] self.fonts@[j].font_name@ == id@
                        && self.fonts@[j].font_size == size),
            },
    {
        let id_owned: String = id.to_owned();
        let mut i: usize = 0;
        while i < self.fonts.len()
            invariant
                id_owned@ == id@,
                0 <= i <= self.fonts.len(),
                forall|j: int|
                    0 <= j < i ==> !(#[trigger] self.fonts@[j].font_name@ == id@
                        && self.fonts@[j].font_size == size),
            decreases self.fonts.len() - i,
        {
            if self.fonts[i].font_name == id_owned && self.fonts[i].font_size == size {
                return Some(i);
            }
            i = i + 1;
        }
        None
    }

    /// Registers a font instance for a family rendered at a size. The
    /// first registration wins: succeeds exactly when the pair is fresh,
    /// and a later lookup of the pair returns the returned instance.
    pub fn add_font(&mut self, id: &str, size: u32) -> (r: Result<
        FontInstanceId,
        crate::errors::Error,
    >)
        requires
            old(self).wf(),
        ensures
            final(self).wf(),
            (r is Ok) == (font_index(old(self).fonts@, id@, size) is None),
            r matches Ok(fid) ==> {
                &&& fid.font_name@ == id@
                &&& fid.font_size == size
                &&& final(self).fonts@.len() == old(self).fonts@.len() + 1
                &&& final(self).fonts@.subrange(0, old(self).fonts@.len() as int) == old(
                    self,
                ).fonts@
                &&& final(self).fonts@.last().font_name@ == id@
                &&& final(self).fonts@.last().font_size == size
                &&& font_index(final(self).fonts@, id@, size) == Some(
                    old(self).fonts@.len() as int,
                )
            },
            r is Err ==> final(self).fonts@ == old(self).fonts@,
    {
        match self.find_index(id, size) {
            Some(i) => {
                proof {
                    lemma_font_index_at(self.fonts@, id@, size, i as int);
                }
                Err(crate::errors::Error {})
            },
            None => {
                proof {
                    lemma_font_index_absent(self.fonts@, id@, size);
                }
                let ghost old_fonts = self.fonts@;
                let fid = FontInstanceId { font_name: id.to_owned(), font_size: size };
                self.fonts.push(FontInstanceId { font_name: id.to_owned(), font_size: size });
                proof {
                    assert(self.fonts@.subrange(0, old_fonts.len() as int) =~= old_fonts);
                    assert forall|a: int, b: int|
                        0 <= a < b < self.fonts@.len() implies !(#[trigger] self.fonts@[a].font_name@
                        == #[trigger] self.fonts@[b].font_name@ && self.fonts@[a].font_size
                        == self.fonts@[b].font_size) by {
                        if b < old_fonts.len() {
                            assert(self.fonts@[a] == old_fonts[a]);
                            assert(self.fonts@[b] == old_fonts[b]);
                        } else {
                            assert(self.fonts@[a] == old_fonts[a]);
                        }
                    }
                    lemma_font_index_at(self.fonts@, id@, size, old_fonts.len() as int);
                }
                Ok(fid)
            },
        }
    }

    /// The instance registered for a (family, size) pair, or `None` when
    /// the pair was never registered — a startup-time configuration bug
    /// that the caller must treat as fatal.
    pub fn lookup_font(&self, id: &str, size: u32) -> (r: Option<&FontInstanceId>)
        ensures
            match r {
                Some(fid) => font_index(self.fonts@, id@, size) matches Some(i) && *fid
                    == self.fonts@[i],
                None => font_index(self.fonts@, id@, size) is None,
            },
    {
        match self.find_index(id, size) {
            Some(i) => {
                proof {
                    lemma_font_index_at(self.fonts@, id@, size, i as int);
                }
                Some(&self.fonts[i])
            },
            None => {
                proof {
                    lemma_font_index_absent(self.fonts@, id@, size);
                }
                None
            },
        }
    }
}

} // verus!
