//! UI model: a flat list of rectangles, each optionally tagged, carrying
//! optional visuals and a small action table. Rebuilt once per frame from
//! the current game state; hit-tested against the previous frame.

use vstd::prelude::*;

use crate::color::Color;
use crate::font::FontInstanceId;
use crate::texture::TextureInstanceId;

verus! {

/// One rectangle of the user interface. The corners are stored in the
/// order top-left, top-right, bottom-left, bottom-right.
#[derive(Clone)]
pub struct UiRect<T: Clone> {
    pub x: [i64; 4],
    pub y: [i64; 4],
    pub data: Box<T>,
}

/// The actual user interface is just a bunch of rectangles. The
/// rectangles get mapped into screen space by the rendering pass.
#[derive(Clone)]
pub struct Ui {
    pub rectangles: Vec<UiRect<UiRendererData>>,
}

/// What a rectangle shows and how it reacts.
#[derive(Clone)]
pub struct UiRendererData {
    /// "Tag", like an HTML id: used to find the rectangle across frames.
    pub tag: Option<String>,
    /// If the rectangle should have a background color.
    pub color: Option<Color>,
    /// Image to draw in the rectangle.
    pub image: Option<TextureInstanceId>,
    /// Optional text with its font.
    pub text: Option<(String, FontInstanceId)>,
    /// Actions associated with this rectangle.
    pub actions: UiActions,
}

/// The closed set of UI actions a rectangle can carry. Dispatch lives in
/// `crate::actions`.
#[derive(Debug, Copy, Clone, PartialEq, Eq, Structural)]
pub enum UiCallback {
    /// Activate the start button: leave the menu and start a game.
    StartGame,
    /// The pointer entered the start button: show the hand cursor.
    StartGameEnter,
    /// The pointer left the start button: restore the default cursor.
    StartGameLeave,
}

/// The action table of one rectangle: what to do on mouse-up, on the
/// pointer entering, and on the pointer leaving.
#[derive(Debug, Copy, Clone, PartialEq, Eq, Structural)]
pub struct UiActions {
    pub onmouseup: Option<UiCallback>,
    pub onmouseenter: Option<UiCallback>,
    pub onmouseleave: Option<UiCallback>,
}

impl UiActions {
    /// An action table with nothing bound.
    pub fn empty() -> (r: Self)
        ensures
            r == (UiActions { onmouseup: None, onmouseenter: None, onmouseleave: None }),
    {
        Self { onmouseup: None, onmouseenter: None, onmouseleave: None }
    }
}

impl Default for UiActions {
    fn default() -> (r: Self)
        ensures
            r == (UiActions { onmouseup: None, onmouseenter: None, onmouseleave: None }),
    {
        UiActions::empty()
    }
}

impl UiRendererData {
    /// Renderer data with no tag, no visuals and no actions.
    pub fn empty() -> (r: Self)
        ensures
            r.tag is None,
            r.color is None,
            r.image is None,
            r.text is None,
            r.actions == (UiActions { onmouseup: None, onmouseenter: None, onmouseleave: None }),
    {
        Self { tag: None, color: None, image: None, text: None, actions: UiActions::empty() }
    }
}

impl Default for UiRendererData {
    fn default() -> (r: Self)
        ensures
            r.tag is None,
            r.color is None,
            r.image is None,
            r.text is None,
            r.actions == (UiActions { onmouseup: None, onmouseenter: None, onmouseleave: None }),
    {
        UiRendererData::empty()
    }
}

/// Index of the first rectangle carrying the given tag, if any.
pub open spec fn first_tag_index(rects: Seq<UiRect<UiRendererData>>, tag: Seq<char>) -> Option<int>
    decreases rects.len(),
{
    if rects.len() == 0 {
        None
    } else if rect_has_tag(rects[0], tag) {
        Some(0int)
    } else {
        match first_tag_index(rects.drop_first(), tag) {
            Some(i) => Some(i + 1),
            None => None,
        }
    }
}

/// Whether a rectangle carries the given tag.
pub open spec fn rect_has_tag(rect: UiRect<UiRendererData>, tag: Seq<char>) -> bool {
    match rect.data.tag {
        Some(t) => t@ == tag,
        None => false,
    }
}

pub proof fn lemma_first_tag_index_some(
    rects: Seq<UiRect<UiRendererData>>,
    tag: Seq<char>,
    i: int,
)
    requires
        0 <= i < rects.len(),
        rect_has_tag(rects[i], tag),
        forall|j: int| 0 <= j < i ==> !rect_has_tag(#[trigger] rects[j], tag),
    ensures
        first_tag_index(rects, tag) == Some(i),
    decreases rects.len(),
{
    if i > 0 {
        lemma_first_tag_index_some(rects.drop_first(), tag, i - 1);
    }
}

pub proof fn lemma_first_tag_index_none(rects: Seq<UiRect<UiRendererData>>, tag: Seq<char>)
    requires
        forall|j: int| 0 <= j < rects.len() ==> !rect_has_tag(#[trigger] rects[j], tag),
    ensures
        first_tag_index(rects, tag) is None,
    decreases rects.len(),
{
    if rects.len() > 0 {
        lemma_first_tag_index_none(rects.drop_first(), tag);
    }
}

impl Ui {
    /// A UI with no rectangles.
    pub fn empty() -> (r: Self)
        ensures
            r.rectangles@ =~= Seq::<UiRect<UiRendererData>>::empty(),
    {
        Self { rectangles: Vec::new() }
    }

    /// Index of the first rectangle carrying the tag, or `None` when no
    /// rectangle does.
    pub fn find_rect_by_tag(&self, tag: &str) -> (r: Option<usize>)
        ensures
            match r {
                Some(i) => i < self.rectangles@.len() && first_tag_index(self.rectangles@, tag@)
                    == Some(i as int),
                None => first_tag_index(self.rectangles@, tag@) is None,
            },
    {
        let tag_owned: String = tag.to_owned();
        let mut i: usize = 0;
        while i < self.rectangles.len()
            invariant
                tag_owned@ == tag@,
                0 <= i <= self.rectangles.len(),
                forall|j: int| 0 <= j < i ==> !rect_has_tag(#[trigger] self.rectangles@[j], tag@),
            decreases self.rectangles.len() - i,
        {
            let found = match &self.rectangles[i].data.tag {
                Some(t) => *t == tag_owned,
                None => false,
            };
            if found {
                proof {
                    assert(rect_has_tag(self.rectangles@[i as int], tag@));
                    lemma_first_tag_index_some(self.rectangles@, tag@, i as int);
                }
                return Some(i);
            }
            proof {
                assert(!rect_has_tag(self.rectangles@[i as int], tag@));
            }
            i = i + 1;
        }
        proof {
            lemma_first_tag_index_none(self.rectangles@, tag@);
        }
        None
    }

    /// Mutable access to the first rectangle carrying the tag. Callers
    /// must guarantee that the tag exists: the UI is built with all
    /// required tags present.
    pub fn get_mut_rect_by_tag(&mut self, tag: &str) -> (r: &mut UiRect<UiRendererData>)
        requires
            first_tag_index(old(self).rectangles@, tag@) is Some,
        ensures
            ({
                let i = first_tag_index(old(self).rectangles@, tag@).unwrap();
                &&& *r == old(self).rectangles@[i]
                &&& final(self).rectangles@ == old(self).rectangles@.update(i, *final(r))
            }),
    {
        let idx_opt = self.find_rect_by_tag(tag);
        let idx = match idx_opt {
            Some(i) => i,
            None => {
                proof {
                    assert(false);
                }
                0
            },
        };
        &mut self.rectangles[idx]
    }
}

impl Default for Ui {
    fn default() -> (r: Self)
        ensures
            r.rectangles@ =~= Seq::<UiRect<UiRendererData>>::empty(),
    {
        Ui::empty()
    }
}

} // verus!
