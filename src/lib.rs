//! Media conversion for a sticker-making bot: image re-encoding, the
//! decisions around external transcoder runs, and request dispatch.

pub mod blob;
pub mod dispatch;
pub mod failure;
pub mod picture;
pub mod transcode;

pub use blob::{Blob, Ext};
pub use failure::Failure;
pub use picture::{encode_sticker_image, fit_to_sticker, process_image, STICKER_SIDE};
pub use transcode::{
    clip_invocation, clip_step, gif_result, lottie_to_gif_invocation, video_to_gif_invocation,
    ClipStep, Invocation, MAX_OUTPUT_WEBM_SIZE,
};
pub use dispatch::{
    check_fetched_size, classify, combine_deliveries, document_op, final_reply, op_for_extension,
    pick_photo, screen, sticker_plan, Admission, Classified, Content, Incoming, Notice,
    Op, PhotoSize, StickerFormat, StickerPlan, MAX_SIZE,
};
