//! What a message carries: its text or caption and its media, and which
//! media a saved item keeps.

use vstd::prelude::*;

verus! {

/// One size of a photo.
#[derive(Debug, Clone, PartialEq, Eq)]
pub struct PhotoSize {
    pub file_id: String,
    pub width: u32,
    pub height: u32,
}

/// The text, caption and media of a message (file ids of each kind).
#[derive(Debug, Clone, PartialEq, Eq)]
pub struct Content {
    pub text: Option<String>,
    pub caption: Option<String>,
    pub photo: Option<Vec<PhotoSize>>,
    pub video: Option<String>,
    pub animation: Option<String>,
    pub document: Option<String>,
    pub sticker: Option<String>,
}

pub open spec fn opt_view(o: Option<String>) -> Option<Seq<char>> {
    match o {
        Some(s) => Some(s@),
        None => None,
    }
}

pub fn opt_clone(o: &Option<String>) -> (r: Option<String>)
    ensures
        opt_view(r) == opt_view(*o),
{
    match o {
        Some(s) => Some(s.clone()),
        None => None,
    }
}

/// The text, else the caption.
pub open spec fn text_or_caption(c: Content) -> Option<Seq<char>> {
    match c.text {
        Some(t) => Some(t@),
        None => opt_view(c.caption),
    }
}

pub fn text_or_caption_of(c: &Content) -> (r: Option<String>)
    ensures
        opt_view(r) == text_or_caption(*c),
{
    match &c.text {
        Some(t) => Some(t.clone()),
        None => opt_clone(&c.caption),
    }
}

/// Widths times heights fit in `u32` (the product is taken in `u32`).
pub open spec fn areas_fit(ps: Seq<PhotoSize>) -> bool {
    forall|i: int| 0 <= i < ps.len() ==> (#[trigger] ps[i]).width * ps[i].height <= u32::MAX
}

pub open spec fn photo_areas_fit(c: Content) -> bool {
    match c.photo {
        Some(ps) => areas_fit(ps@),
        None => true,
    }
}

/// Whether the photo sizes of the content multiply without overflow.
pub fn photo_areas_checked(c: &Content) -> (b: bool)
    ensures
        b == photo_areas_fit(*c),
{
    match &c.photo {
        None => true,
        Some(ps) => {
            let mut i: usize = 0;
            while i < ps.len()
                invariant
                    i <= ps.len(),
                    photo_areas_fit(*c) == areas_fit(ps@),
                    forall|k: int| 0 <= k < i ==> (#[trigger] ps@[k]).width * ps@[k].height <= u32::MAX,
                decreases ps.len() - i,
            {
                let w = ps[i].width as u64;
                let h = ps[i].height as u64;
                assert(w * h <= u64::MAX) by (nonlinear_arith)
                    requires
                        w <= u32::MAX,
                        h <= u32::MAX,
                ;
                if w * h > u32::MAX as u64 {
                    assert((ps@[i as int]).width * ps@[i as int].height > u32::MAX);
                    assert(!areas_fit(ps@));
                    return false;
                }
                i = i + 1;
            }
            true
        },
    }
}

/// Index of the largest size by area; the last of equal maxima
/// (`Iterator::max_by_key`).
pub open spec fn largest_index(ps: Seq<PhotoSize>) -> Option<int>
    decreases ps.len(),
{
    if ps.len() == 0 {
        None
    } else {
        match largest_index(ps.drop_last()) {
            None => Some(ps.len() - 1),
            Some(j) => if ps.last().width * ps.last().height >= ps[j].width * ps[j].height {
                Some(ps.len() - 1)
            } else {
                Some(j)
            },
        }
    }
}

pub proof fn lemma_largest_in_range(ps: Seq<PhotoSize>)
    ensures
        largest_index(ps) matches Some(j) ==> 0 <= j < ps.len(),
        ps.len() > 0 ==> largest_index(ps) is Some,
    decreases ps.len(),
{
    if ps.len() > 0 {
        lemma_largest_in_range(ps.drop_last());
    }
}

pub fn largest_photo(ps: &Vec<PhotoSize>) -> (r: Option<usize>)
    requires
        areas_fit(ps@),
    ensures
        match r {
            Some(j) => largest_index(ps@) == Some(j as int),
            None => largest_index(ps@) is None,
        },
{
    let mut best: Option<usize> = None;
    let mut i: usize = 0;
    assert(ps@.take(0) =~= Seq::<PhotoSize>::empty());
    while i < ps.len()
        invariant
            i <= ps.len(),
            areas_fit(ps@),
            match best {
                Some(j) => largest_index(ps@.take(i as int)) == Some(j as int) && j < i,
                None => largest_index(ps@.take(i as int)) is None,
            },
        decreases ps.len() - i,
    {
        assert(ps@.take(i + 1).drop_last() =~= ps@.take(i as int));
        assert(ps@.take(i + 1).last() == ps@[i as int]);
        let a = ps[i].width * ps[i].height;
        best = match best {
            None => Some(i),
            Some(j) => {
                assert(ps@.take(i + 1)[j as int] == ps@[j as int]);
                if a >= ps[j].width * ps[j].height {
                    Some(i)
                } else {
                    Some(j)
                }
            },
        };
        i = i + 1;
    }
    assert(ps@.take(ps.len() as int) =~= ps@);
    best
}

/// A media file id with its kind (`photo`, `video`, ...).
pub type Media = (Option<String>, Option<String>);

pub open spec fn media_view(m: Media) -> (Option<Seq<char>>, Option<Seq<char>>) {
    (opt_view(m.0), opt_view(m.1))
}

/// Media kept by a filter: the largest photo, else a video, an animation, a
/// document or a sticker.
pub open spec fn filter_media(c: Content) -> (Option<Seq<char>>, Option<Seq<char>>) {
    match c.photo {
        Some(ps) => (
            match largest_index(ps@) {
                Some(j) => Some(ps@[j].file_id@),
                None => None,
            },
            Some("photo"@),
        ),
        None => match c.video {
            Some(v) => (Some(v@), Some("video"@)),
            None => match c.animation {
                Some(a) => (Some(a@), Some("animation"@)),
                None => match c.document {
                    Some(d) => (Some(d@), Some("document"@)),
                    None => match c.sticker {
                        Some(s) => (Some(s@), Some("sticker"@)),
                        None => (None, None),
                    },
                },
            },
        },
    }
}

/// Media kept by a welcome or goodbye message: the largest photo, else a
/// video, an animation, a sticker or a document.
pub open spec fn greeting_media(c: Content) -> (Option<Seq<char>>, Option<Seq<char>>) {
    match c.photo {
        Some(ps) => (
            match largest_index(ps@) {
                Some(j) => Some(ps@[j].file_id@),
                None => None,
            },
            Some("photo"@),
        ),
        None => match c.video {
            Some(v) => (Some(v@), Some("video"@)),
            None => match c.animation {
                Some(a) => (Some(a@), Some("animation"@)),
                None => match c.sticker {
                    Some(s) => (Some(s@), Some("sticker"@)),
                    None => match c.document {
                        Some(d) => (Some(d@), Some("document"@)),
                        None => (None, None),
                    },
                },
            },
        },
    }
}

/// Media kept by a note: the last photo size, else a video or a document.
pub open spec fn note_media(c: Content) -> (Option<Seq<char>>, Option<Seq<char>>) {
    match c.photo {
        Some(ps) if ps@.len() > 0 => (Some(ps@.last().file_id@), Some("photo"@)),
        _ => match c.video {
            Some(v) => (Some(v@), Some("video"@)),
            None => match c.document {
                Some(d) => (Some(d@), Some("document"@)),
                None => (None, None),
            },
        },
    }
}

fn some_kind(id: &String, kind: &str) -> (r: Media)
    ensures
        media_view(r) == (Some(id@), Some(kind@)),
{
    (Some(id.clone()), Some(kind.to_owned()))
}

fn largest_photo_id(ps: &Vec<PhotoSize>) -> (r: Option<String>)
    requires
        areas_fit(ps@),
    ensures
        opt_view(r) == match largest_index(ps@) {
            Some(j) => Some(ps@[j].file_id@),
            None => None,
        },
{
    match largest_photo(ps) {
        Some(j) => {
            proof {
                lemma_largest_in_range(ps@);
            }
            Some(ps[j].file_id.clone())
        },
        None => None,
    }
}

/// Extract media file ID and type from a message, as filters keep it.
pub fn extract_media(c: &Content) -> (r: Media)
    requires
        photo_areas_fit(*c),
    ensures
        media_view(r) == filter_media(*c),
{
    if let Some(ps) = &c.photo {
        (largest_photo_id(ps), Some("photo".to_owned()))
    } else if let Some(v) = &c.video {
        some_kind(v, "video")
    } else if let Some(a) = &c.animation {
        some_kind(a, "animation")
    } else if let Some(d) = &c.document {
        some_kind(d, "document")
    } else if let Some(s) = &c.sticker {
        some_kind(s, "sticker")
    } else {
        (None, None)
    }
}

/// Extract message content (text, media file_id, media type), as welcome
/// and goodbye messages keep it.
pub fn extract_message_content(c: &Content) -> (r: (Option<String>, Option<String>, Option<String>))
    requires
        photo_areas_fit(*c),
    ensures
        opt_view(r.0) == text_or_caption(*c),
        (opt_view(r.1), opt_view(r.2)) == greeting_media(*c),
{
    let text = text_or_caption_of(c);
    let (file_id, media_type) = if let Some(ps) = &c.photo {
        (largest_photo_id(ps), Some("photo".to_owned()))
    } else if let Some(v) = &c.video {
        some_kind(v, "video")
    } else if let Some(a) = &c.animation {
        some_kind(a, "animation")
    } else if let Some(s) = &c.sticker {
        some_kind(s, "sticker")
    } else if let Some(d) = &c.document {
        some_kind(d, "document")
    } else {
        (None, None)
    };
    (text, file_id, media_type)
}

/// Media kept by a note.
pub fn note_media_of(c: &Content) -> (r: Media)
    ensures
        media_view(r) == note_media(*c),
{
    if let Some(ps) = &c.photo {
        if ps.len() > 0 {
            return some_kind(&ps[ps.len() - 1].file_id, "photo");
        }
    }
    if let Some(v) = &c.video {
        some_kind(v, "video")
    } else if let Some(d) = &c.document {
        some_kind(d, "document")
    } else {
        (None, None)
    }
}

} // verus!
