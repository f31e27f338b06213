use stickerify::{
    check_fetched_size, classify, combine_deliveries, document_op, final_reply, op_for_extension,
    pick_photo, screen, sticker_plan, Admission, Content, Ext, Failure, Incoming, Notice, Op,
    PhotoSize, StickerFormat, StickerPlan, MAX_SIZE,
};

#[test]
fn oversized_file_is_refused_before_download() {
    let mut downloads = 0;
    let mut download = || downloads += 1;
    match screen(Incoming::Media { op: Op::Image, size: MAX_SIZE + 1 }) {
        Admission::Reply(n) => assert_eq!(n.text(), "File is too large."),
        Admission::Fetch(_) => download(),
    }
    assert_eq!(downloads, 0);
    assert_eq!(MAX_SIZE, 10 * 1024 * 1024);
}

#[test]
fn file_at_the_limit_is_fetched() {
    let op = Op::Sticker(StickerFormat::Video);
    assert_eq!(screen(Incoming::Media { op, size: MAX_SIZE }), Admission::Fetch(op));
    assert_eq!(screen(Incoming::Media { op, size: 0 }), Admission::Fetch(op));
}

#[test]
fn text_messages_get_notices() {
    assert_eq!(screen(Incoming::StartCommand), Admission::Reply(Notice::Help));
    assert_eq!(screen(Incoming::Other), Admission::Reply(Notice::Nudge));
    assert_eq!(Notice::Help.text(), "Send an image, GIF, or sticker to convert.");
    assert_eq!(Notice::Nudge.text(), "Please send an image, GIF, or sticker.");
}

#[test]
fn fetched_size_is_checked_again() {
    assert_eq!(check_fetched_size(MAX_SIZE), Ok(()));
    assert_eq!(check_fetched_size(MAX_SIZE + 1), Err(Failure::TooLarge));
    assert_eq!(Failure::TooLarge.user_message(), "File too big");
}

#[test]
fn photo_choice() {
    let s = |width, height| PhotoSize { width, height, file_size: width * height };
    assert_eq!(pick_photo(&vec![s(90, 60), s(320, 213), s(800, 533), s(1280, 853)]), 2);
    assert_eq!(pick_photo(&vec![s(90, 60), s(320, 213)]), 1);
    assert_eq!(pick_photo(&vec![s(100, 512)]), 0);
    assert_eq!(pick_photo(&vec![s(10, 10)]), 0);
}

#[test]
fn gif_documents_are_clips() {
    assert_eq!(op_for_extension(Some("gif")), Op::Video);
    assert_eq!(op_for_extension(Some("GiF")), Op::Video);
    assert_eq!(op_for_extension(Some("gifs")), Op::Image);
    assert_eq!(op_for_extension(Some("png")), Op::Image);
    assert_eq!(op_for_extension(None), Op::Image);
    assert_eq!(document_op(Some("party.GIF")), Op::Video);
    assert_eq!(document_op(Some("party.gif.png")), Op::Image);
    assert_eq!(document_op(Some("gif")), Op::Image);
    assert_eq!(document_op(Some(".gif")), Op::Image);
    assert_eq!(document_op(None), Op::Image);
}

#[test]
fn sticker_plans() {
    assert_eq!(sticker_plan(StickerFormat::Static), StickerPlan::Resend(Ext::Webp));
    assert_eq!(sticker_plan(StickerFormat::Animated), StickerPlan::RenderVector);
    assert_eq!(sticker_plan(StickerFormat::Video), StickerPlan::ResendAndRenderVideo(Ext::Webm));
}

#[test]
fn first_delivery_failure_takes_precedence() {
    let e1 = Err(Failure::DeliveryFailed);
    let e2 = Err(Failure::TranscodeFailed);
    assert_eq!(combine_deliveries(e1, e2), e1);
    assert_eq!(combine_deliveries(Ok(()), e2), e2);
    assert_eq!(combine_deliveries(e1, Ok(())), e1);
    assert_eq!(combine_deliveries(Ok(()), Ok(())), Ok(()));
}

#[test]
fn replies_after_a_request() {
    assert_eq!(final_reply(Ok(())), "");
    assert_eq!(final_reply(Err(Failure::NotAnImage)), "File is not an image.");
    assert_eq!(final_reply(Err(Failure::DeliveryFailed)), "Failed to send.");
    assert_eq!(final_reply(Err(Failure::TranscodeFailed)), "Something went wrong.");
    assert_eq!(final_reply(Err(Failure::Timeout)), "Something went wrong.");
    assert_eq!(final_reply(Err(Failure::Io)), "Something went wrong.");
}

#[test]
fn classify_documents_by_extension() {
    let c = classify(&Content::Document { file_name: Some("dance.gif".to_string()), size: 77 });
    assert_eq!(c.incoming, Incoming::Media { op: Op::Video, size: 77 });
    assert_eq!(c.base.as_deref(), Some("dance.gif"));
    assert_eq!(c.caption, None);
    assert_eq!(c.photo, None);
    let c = classify(&Content::Document { file_name: Some("cat.jpg".to_string()), size: 5 });
    assert_eq!(c.incoming, Incoming::Media { op: Op::Image, size: 5 });
    let c = classify(&Content::Document { file_name: None, size: 5 });
    assert_eq!(c.incoming, Incoming::Media { op: Op::Image, size: 5 });
    assert_eq!(c.base, None);
}

#[test]
fn classify_photos_animations_and_stickers() {
    let sizes = vec![
        PhotoSize { width: 90, height: 90, file_size: 1000 },
        PhotoSize { width: 600, height: 600, file_size: 50_000 },
        PhotoSize { width: 1200, height: 1200, file_size: 200_000 },
    ];
    let c = classify(&Content::Photo { sizes });
    assert_eq!(c.photo, Some(1));
    assert_eq!(c.incoming, Incoming::Media { op: Op::Image, size: 50_000 });
    assert_eq!(c.base, None);

    let c = classify(&Content::Animation { file_name: Some("a.mp4".to_string()), size: 9 });
    assert_eq!(c.incoming, Incoming::Media { op: Op::Video, size: 9 });
    assert_eq!(c.base.as_deref(), Some("a.mp4"));

    let c = classify(&Content::Sticker {
        format: StickerFormat::Animated,
        set_name: Some("Pack".to_string()),
        emoji: Some("\u{1f600}".to_string()),
        size: 30,
    });
    assert_eq!(c.incoming, Incoming::Media { op: Op::Sticker(StickerFormat::Animated), size: 30 });
    assert_eq!(c.base.as_deref(), Some("Pack"));
    assert_eq!(c.caption.as_deref(), Some("\u{1f600}"));
}

#[test]
fn classify_text() {
    let c = classify(&Content::Text { text: "/start".to_string() });
    assert_eq!(c.incoming, Incoming::StartCommand);
    let c = classify(&Content::Text { text: "/start now".to_string() });
    assert_eq!(c.incoming, Incoming::Other);
    assert_eq!(classify(&Content::Other).incoming, Incoming::Other);
}
