//! Request dispatch: classification, the size policy, sticker plans and replies.

use vstd::prelude::*;

use crate::blob::Ext;
use crate::failure::{user_message_of, Failure};

verus! {

/// The largest file, in bytes, that is accepted for conversion.
pub const MAX_SIZE: u32 = 10 << 20;

/// The encoding a sticker arrives in.
#[derive(Clone, Copy, Debug, PartialEq, Eq, Structural)]
pub enum StickerFormat {
    /// A raster sticker, already webp.
    Static,
    /// A vector-animated sticker.
    Animated,
    /// A webm sticker.
    Video,
}

/// The conversion a request asks for.
#[derive(Clone, Copy, Debug, PartialEq, Eq, Structural)]
pub enum Op {
    Image,
    Video,
    Sticker(StickerFormat),
}

/// What an incoming message offers, once classified.
#[derive(Clone, Copy, Debug, PartialEq, Eq, Structural)]
pub enum Incoming {
    /// A file to convert, with the size the transport declared for it.
    Media { op: Op, size: u32 },
    /// The start command.
    StartCommand,
    /// Anything else.
    Other,
}

/// The short text replies that end a request without a conversion.
#[derive(Clone, Copy, Debug, PartialEq, Eq, Structural)]
pub enum Notice {
    Help,
    Nudge,
    TooLarge,
}

pub open spec fn notice_text_of(n: Notice) -> Seq<char> {
    match n {
        Notice::Help => "Send an image, GIF, or sticker to convert."@,
        Notice::Nudge => "Please send an image, GIF, or sticker."@,
        Notice::TooLarge => "File is too large."@,
    }
}

impl Notice {
    pub fn text(&self) -> (r: &'static str)
        ensures
            r@ == notice_text_of(*self),
    {
        match self {
            Notice::Help => "Send an image, GIF, or sticker to convert.",
            Notice::Nudge => "Please send an image, GIF, or sticker.",
            Notice::TooLarge => "File is too large.",
        }
    }
}

/// Whether a request goes on to fetch its file, or is answered at once.
#[derive(Clone, Copy, Debug, PartialEq, Eq, Structural)]
pub enum Admission {
    Fetch(Op),
    Reply(Notice),
}

/// Screens an incoming message before anything is downloaded: a file over
/// the size limit is refused here, by its declared size.
pub fn screen(incoming: Incoming) -> (r: Admission)
    ensures
        r == match incoming {
            Incoming::Media { op, size } => if size > MAX_SIZE {
                Admission::Reply(Notice::TooLarge)
            } else {
                Admission::Fetch(op)
            },
            Incoming::StartCommand => Admission::Reply(Notice::Help),
            Incoming::Other => Admission::Reply(Notice::Nudge),
        },
        incoming matches Incoming::Media { size, .. } && size > MAX_SIZE ==> !(r is Fetch),
{
    match incoming {
        Incoming::Media { op, size } => {
            if size > MAX_SIZE {
                Admission::Reply(Notice::TooLarge)
            } else {
                Admission::Fetch(op)
            }
        },
        Incoming::StartCommand => Admission::Reply(Notice::Help),
        Incoming::Other => Admission::Reply(Notice::Nudge),
    }
}

/// Checks the size reported when the file reference is fetched, before the
/// download starts.
pub fn check_fetched_size(size: u32) -> (r: Result<(), Failure>)
    ensures
        r is Err <==> size > MAX_SIZE,
        r matches Err(e) ==> e == Failure::TooLarge,
{
    if size > MAX_SIZE {
        Err(Failure::TooLarge)
    } else {
        Ok(())
    }
}

/// One of the sizes a photo is offered in, with the size of its file in bytes.
#[derive(Clone, Copy, Debug, PartialEq, Eq, Structural)]
pub struct PhotoSize {
    pub width: u32,
    pub height: u32,
    pub file_size: u32,
}

pub open spec fn large_enough(p: PhotoSize) -> bool {
    p.width >= 512 || p.height >= 512
}

/// Picks the first offered size that reaches 512 pixels on some side, or the
/// last one when none does.
pub fn pick_photo(sizes: &Vec<PhotoSize>) -> (r: usize)
    requires
        sizes.len() > 0,
    ensures
        r < sizes.len(),
        forall|i: int| 0 <= i < r ==> !large_enough(#[trigger] sizes@[i]),
        large_enough(sizes@[r as int]) || (r == sizes.len() - 1 && forall|i: int|
            0 <= i < sizes.len() ==> !large_enough(#[trigger] sizes@[i])),
{
    let mut i: usize = 0;
    while i < sizes.len()
        invariant
            i <= sizes.len(),
            forall|j: int| 0 <= j < i ==> !large_enough(#[trigger] sizes@[j]),
        decreases sizes.len() - i,
    {
        if sizes[i].width >= 512 || sizes[i].height >= 512 {
            return i;
        }
        i = i + 1;
    }
    sizes.len() - 1
}

/// The index of the last dot in a text, or -1 when it holds none.
pub open spec fn last_dot(s: Seq<char>) -> int
    decreases s.len(),
{
    if s.len() == 0 {
        -1
    } else if s.last() == '.' {
        s.len() - 1
    } else {
        last_dot(s.drop_last())
    }
}

/// A name that is its own file name: no `/` in it, and not `..`.
pub open spec fn plain_file_name(name: Seq<char>) -> bool {
    &&& forall|j: int| 0 <= j < name.len() ==> name[j] != '/'
    &&& name != seq!['.', '.']
}

/// The text after the last dot of a file name, where that dot is not its
/// first character.
pub open spec fn extension_after_last_dot(name: Seq<char>) -> Option<Seq<char>> {
    if last_dot(name) > 0 {
        Some(name.subrange(last_dot(name) + 1, name.len() as int))
    } else {
        None
    }
}

/// The extension of a path, as the standard library's `Path::extension` finds it.
pub uninterp spec fn path_extension(name: Seq<char>) -> Option<Seq<char>>;

/// Relies on `Path::extension`: the part of the file name after its last dot,
/// if the name holds a dot past its first character; a name with no dot has
/// none. A name with no `/` that is not `..` is its own file name.
#[verifier::external_body]
fn file_extension(name: &str) -> (r: Option<String>)
    ensures
        r matches Some(e) ==> path_extension(name@) == Some(e@),
        r is None ==> path_extension(name@) is None,
        (forall|i: int| 0 <= i < name@.len() ==> name@[i] != '.') ==> r is None,
        plain_file_name(name@) ==> text_of(r) == extension_after_last_dot(name@),
{
    std::path::Path::new(name).extension().and_then(|e| e.to_str()).map(|e| e.to_owned())
}

/// `gif`, in any mix of ASCII cases.
pub open spec fn is_gif_text(s: Seq<char>) -> bool {
    &&& s.len() == 3
    &&& (s[0] == 'g' || s[0] == 'G')
    &&& (s[1] == 'i' || s[1] == 'I')
    &&& (s[2] == 'f' || s[2] == 'F')
}

/// The operation for a document whose name has the given extension: a gif
/// is treated as a clip, anything else as an image.
pub fn op_for_extension(ext: Option<&str>) -> (r: Op)
    ensures
        r == (if ext matches Some(e) && is_gif_text(e@) {
            Op::Video
        } else {
            Op::Image
        }),
{
    match ext {
        Some(e) => {
            if e.unicode_len() == 3 {
                let c0 = e.get_char(0);
                let c1 = e.get_char(1);
                let c2 = e.get_char(2);
                if (c0 == 'g' || c0 == 'G') && (c1 == 'i' || c1 == 'I') && (c2 == 'f' || c2
                    == 'F') {
                    return Op::Video;
                }
            }
            Op::Image
        },
        None => Op::Image,
    }
}

/// The operation for a document, chosen by the extension of its file name.
pub fn document_op(file_name: Option<&str>) -> (r: Op)
    ensures
        r == (if file_name matches Some(n) && path_extension(n@) matches Some(e) && is_gif_text(
            e,
        ) {
            Op::Video
        } else {
            Op::Image
        }),
        file_name matches Some(n) ==> (plain_file_name(n@) ==> (r == Op::Video <==> (
        extension_after_last_dot(n@) matches Some(e) && is_gif_text(e)))),
{
    match file_name {
        Some(n) => match file_extension(n) {
            Some(e) => op_for_extension(Some(e.as_str())),
            None => Op::Image,
        },
        None => Op::Image,
    }
}

/// What a message carries, as far as the conversion cares.
#[derive(Clone, Debug)]
pub enum Content {
    Document { file_name: Option<String>, size: u32 },
    /// A photo, offered in several sizes (never none).
    Photo { sizes: Vec<PhotoSize> },
    Animation { file_name: Option<String>, size: u32 },
    Sticker { format: StickerFormat, set_name: Option<String>, emoji: Option<String>, size: u32 },
    Text { text: String },
    Other,
}

/// A classified message: what it asks for, which photo size to fetch, the
/// name its output is based on, and the caption to send back.
#[derive(Clone, Debug)]
pub struct Classified {
    pub incoming: Incoming,
    pub photo: Option<usize>,
    pub base: Option<String>,
    pub caption: Option<String>,
}

pub open spec fn text_of(o: Option<String>) -> Option<Seq<char>> {
    match o {
        Some(s) => Some(s@),
        None => None,
    }
}

pub open spec fn well_formed_content(c: Content) -> bool {
    c matches Content::Photo { sizes } ==> sizes.len() > 0
}

fn copy_text(o: &Option<String>) -> (r: Option<String>)
    ensures
        text_of(r) == text_of(*o),
{
    match o {
        Some(s) => Some(s.clone()),
        None => None,
    }
}

/// Classifies a message: a document is a clip when its name ends in a gif
/// extension and an image otherwise; a photo is an image fetched in the size
/// `pick_photo` chooses; an animation is a clip; a sticker is converted by its
/// format and captioned with its emoji; `/start` asks for help.
pub fn classify(content: &Content) -> (r: Classified)
    requires
        well_formed_content(*content),
    ensures
        match *content {
            Content::Document { file_name, size } => {
                &&& r.incoming == Incoming::Media {
                    op: if file_name matches Some(n) && path_extension(n@) matches Some(e)
                        && is_gif_text(e) {
                        Op::Video
                    } else {
                        Op::Image
                    },
                    size,
                }
                &&& (file_name matches Some(n) ==> (plain_file_name(n@) ==> (r.incoming
                    == Incoming::Media { op: Op::Video, size } <==> (extension_after_last_dot(
                    n@,
                ) matches Some(e) && is_gif_text(e)))))
                &&& r.photo is None
                &&& text_of(r.base) == text_of(file_name)
                &&& r.caption is None
            },
            Content::Photo { sizes } => {
                &&& r.photo matches Some(i) && i < sizes.len() && r.incoming == (Incoming::Media {
                    op: Op::Image,
                    size: sizes@[i as int].file_size,
                })
                &&& forall|j: int| 0 <= j < r.photo.unwrap() ==> !large_enough(#[trigger] sizes@[j])
                &&& large_enough(sizes@[r.photo.unwrap() as int]) || r.photo.unwrap() == sizes.len()
                    - 1
                &&& r.base is None
                &&& r.caption is None
            },
            Content::Animation { file_name, size } => {
                &&& r.incoming == Incoming::Media { op: Op::Video, size }
                &&& r.photo is None
                &&& text_of(r.base) == text_of(file_name)
                &&& r.caption is None
            },
            Content::Sticker { format, set_name, emoji, size } => {
                &&& r.incoming == Incoming::Media { op: Op::Sticker(format), size }
                &&& r.photo is None
                &&& text_of(r.base) == text_of(set_name)
                &&& text_of(r.caption) == text_of(emoji)
            },
            Content::Text { text } => {
                &&& r.incoming == if text@ == "/start"@ {
                    Incoming::StartCommand
                } else {
                    Incoming::Other
                }
                &&& r.photo is None
                &&& r.base is None
                &&& r.caption is None
            },
            Content::Other => {
                &&& r.incoming == Incoming::Other
                &&& r.photo is None
                &&& r.base is None
                &&& r.caption is None
            },
        },
{
    match content {
        Content::Document { file_name, size } => {
            let op = match file_name {
                Some(n) => document_op(Some(n.as_str())),
                None => document_op(None),
            };
            Classified {
                incoming: Incoming::Media { op, size: *size },
                photo: None,
                base: copy_text(file_name),
                caption: None,
            }
        },
        Content::Photo { sizes } => {
            let i = pick_photo(sizes);
            Classified {
                incoming: Incoming::Media { op: Op::Image, size: sizes[i].file_size },
                photo: Some(i),
                base: None,
                caption: None,
            }
        },
        Content::Animation { file_name, size } => Classified {
            incoming: Incoming::Media { op: Op::Video, size: *size },
            photo: None,
            base: copy_text(file_name),
            caption: None,
        },
        Content::Sticker { format, set_name, emoji, size } => Classified {
            incoming: Incoming::Media { op: Op::Sticker(*format), size: *size },
            photo: None,
            base: copy_text(set_name),
            caption: copy_text(emoji),
        },
        Content::Text { text } => {
            let start = String::from_str("/start");
            let incoming = if text.eq(&start) {
                Incoming::StartCommand
            } else {
                Incoming::Other
            };
            Classified { incoming, photo: None, base: None, caption: None }
        },
        Content::Other => Classified {
            incoming: Incoming::Other,
            photo: None,
            base: None,
            caption: None,
        },
    }
}

/// The deliveries a sticker gets.
#[derive(Clone, Copy, Debug, PartialEq, Eq, Structural)]
pub enum StickerPlan {
    /// Its own bytes, sent under an extension.
    Resend(Ext),
    /// A gif rendered from the downloaded file by the vector-animation script.
    RenderVector,
    /// Both at once: its own bytes under an extension, and a gif that ffmpeg
    /// renders from the same bytes.
    ResendAndRenderVideo(Ext),
}

pub fn sticker_plan(format: StickerFormat) -> (r: StickerPlan)
    ensures
        r == match format {
            StickerFormat::Static => StickerPlan::Resend(Ext::Webp),
            StickerFormat::Animated => StickerPlan::RenderVector,
            StickerFormat::Video => StickerPlan::ResendAndRenderVideo(Ext::Webm),
        },
{
    match format {
        StickerFormat::Static => StickerPlan::Resend(Ext::Webp),
        StickerFormat::Animated => StickerPlan::RenderVector,
        StickerFormat::Video => StickerPlan::ResendAndRenderVideo(Ext::Webm),
    }
}

/// The outcome of two deliveries that both ran to completion: the first
/// one's failure takes precedence, then the second one's.
pub fn combine_deliveries(first: Result<(), Failure>, second: Result<(), Failure>) -> (r: Result<
    (),
    Failure,
>)
    ensures
        r == (if first is Err {
            first
        } else {
            second
        }),
{
    match first {
        Err(e) => Err(e),
        Ok(()) => second,
    }
}

/// The text sent back once a request has run: nothing after success,
/// otherwise the failure's message.
pub fn final_reply(outcome: Result<(), Failure>) -> (r: &'static str)
    ensures
        r@ == match outcome {
            Ok(()) => Seq::<char>::empty(),
            Err(f) => user_message_of(f),
        },
{
    match outcome {
        Ok(()) => {
            proof {
                reveal_strlit("");
            }
            ""
        },
        Err(f) => f.user_message(),
    }
}

} // verus!
