//! Selection of an embedded cover image from tag events.
//!
//! The first image tagged as a front cover wins and ends the scan; an
//! image with an undefined or absent classification is remembered as a
//! fallback (first such image wins as fallback); any other explicit
//! classification is ignored.

use vstd::prelude::*;

verus! {

/// The classification a tag event gives to an embedded image.
#[derive(Clone, Copy, Debug, PartialEq, Eq, Structural)]
pub enum TagImageType {
    /// Explicitly marked as the front cover.
    FrontCover,
    /// Explicitly marked as having no defined type.
    Undefined,
    /// The tag carries no classification at all.
    Absent,
    /// Any other explicit classification.
    Other,
}

/// An embedded image delivered by a tag event: its raw encoded bytes and
/// its classification.
#[derive(Debug)]
pub struct TagImage {
    pub image_type: TagImageType,
    pub data: Vec<u8>,
}

/// Whether a tag image is an explicit front cover.
pub open spec fn is_front(t: TagImage) -> bool {
    t.image_type is FrontCover
}

/// Whether a tag image may serve as a fallback cover: its classification
/// is undefined or missing.
pub open spec fn is_fallback(t: TagImage) -> bool {
    t.image_type is Undefined || t.image_type is Absent
}

/// Whether some tag in the sequence is an explicit front cover.
pub open spec fn has_front(tags: Seq<TagImage>) -> bool {
    exists|k: int| 0 <= k < tags.len() && is_front(tags[k])
}

/// Whether some tag in the sequence can serve as a fallback cover.
pub open spec fn has_fallback(tags: Seq<TagImage>) -> bool {
    exists|k: int| 0 <= k < tags.len() && is_fallback(tags[k])
}

/// Whether index `i` holds the chosen cover among the tag images: the
/// first front cover when one exists, else the first fallback.
pub open spec fn is_cover_choice(tags: Seq<TagImage>, i: int) -> bool {
    if has_front(tags) {
        &&& 0 <= i < tags.len()
        &&& is_front(tags[i])
        &&& forall|j: int| 0 <= j < i ==> !is_front(tags[j])
    } else {
        &&& 0 <= i < tags.len()
        &&& is_fallback(tags[i])
        &&& forall|j: int| 0 <= j < i ==> !is_fallback(tags[j])
    }
}

/// Picks the index of the cover image among the given tag images: the
/// first front cover if there is one, else the first fallback, else none.
pub fn select_cover(tags: &Vec<TagImage>) -> (r: Option<usize>)
    ensures
        has_front(tags@) || has_fallback(tags@) ==> (r matches Some(i)
            && is_cover_choice(tags@, i as int)),
        !has_front(tags@) && !has_fallback(tags@) ==> r is None,
{
    let mut fallback: Option<usize> = None;
    let mut i: usize = 0;
    while i < tags.len()
        invariant
            i <= tags@.len(),
            forall|j: int| 0 <= j < i ==> !is_front(tags@[j]),
            match fallback {
                Some(f) => 0 <= f < i && is_fallback(tags@[f as int])
                    && forall|j: int| 0 <= j < f as int ==> !is_fallback(tags@[j]),
                None => forall|j: int| 0 <= j < i ==> !is_fallback(tags@[j]),
            },
        decreases tags@.len() - i,
    {
        match tags[i].image_type {
            TagImageType::FrontCover => {
                return Some(i);
            }
            TagImageType::Undefined | TagImageType::Absent => {
                if fallback.is_none() {
                    fallback = Some(i);
                }
            }
            TagImageType::Other => {}
        }
        i = i + 1;
    }
    fallback
}

} // verus!
