use codex_logic::image_preparation::{
    is_data_url, is_remote_image_url, plan_image, prepare_message_content, prepare_response_items, ContentItem,
    FunctionCallOutputContentItem, ImageDetail, ImageDetailSetting, ImageOrigin, ImagePlan, ImagePreparationError,
    ImageProcessingError, LoadedImage, PromptImageResizeLimits, ResponseItem,
};

fn loaded(_url: &str, limits: PromptImageResizeLimits) -> Result<LoadedImage, ImageProcessingError> {
    Ok(LoadedImage {
        source_width: 4000,
        source_height: 3000,
        width: limits.max_dimension,
        height: 1536,
        data_url: "data:image/png;base64,RESIZED".to_string(),
    })
}

fn too_large(_url: &str, _limits: PromptImageResizeLimits) -> Result<LoadedImage, ImageProcessingError> {
    Err(ImageProcessingError::ImageTooLarge)
}

#[test]
fn url_kinds() {
    assert!(is_remote_image_url("https://example.com/a.png"));
    assert!(is_remote_image_url("HTTP://x"));
    assert!(!is_remote_image_url("ftp://x"));
    assert!(!is_remote_image_url("data:image/png;base64,AA"));
    assert!(!is_remote_image_url("no-colon"));
    assert!(is_data_url("DATA:image/png"));
    assert!(!is_data_url("dat"));
    assert!(!is_data_url("file:///a.png"));
}

#[test]
fn placeholders() {
    assert_eq!(
        ImagePreparationError::RemoteUrlUnsupported.placeholder(),
        "image content omitted because remote image URLs are not supported"
    );
    assert_eq!(
        ImagePreparationError::Processing(ImageProcessingError::ImageTooLarge).placeholder(),
        "image content omitted because it exceeded the supported size limit; use a smaller image"
    );
    assert_eq!(
        ImagePreparationError::Processing(ImageProcessingError::Failed).placeholder(),
        "image content omitted because it could not be processed"
    );
    assert_eq!(
        ImagePreparationError::UnsupportedLowDetail.placeholder(),
        "image content omitted because detail 'low' is not supported; use 'high', 'original', or 'auto'"
    );
}

#[test]
fn plans() {
    assert!(matches!(plan_image("data:x", Some(ImageDetail::Original)),
        ImagePlan::Load { effective_detail: ImageDetailSetting::Original, limits: PromptImageResizeLimits { max_dimension: 6000, max_patches: 10000 } }));
    assert!(matches!(plan_image("data:x", None),
        ImagePlan::Load { effective_detail: ImageDetailSetting::High, limits: PromptImageResizeLimits { max_dimension: 2048, max_patches: 2500 } }));
    assert!(matches!(plan_image("data:x", Some(ImageDetail::Low)), ImagePlan::Fail(ImagePreparationError::UnsupportedLowDetail)));
    assert!(matches!(plan_image("https://x", Some(ImageDetail::Low)), ImagePlan::Fail(ImagePreparationError::RemoteUrlUnsupported)));
    assert!(matches!(plan_image("file:///x.png", Some(ImageDetail::Low)), ImagePlan::Keep));
}

#[test]
fn message_content_is_prepared_item_by_item() {
    let mut items = vec![
        ContentItem::InputText { text: "hi".to_string() },
        ContentItem::InputImage { image_url: "https://x/y.png".to_string(), detail: None },
        ContentItem::InputImage { image_url: "data:image/png;base64,AAAA".to_string(), detail: Some(ImageDetail::Auto) },
        ContentItem::InputImage { image_url: "file:///local.png".to_string(), detail: None },
    ];
    let mut metadata = Vec::new();
    let origin = ImageOrigin { message_role: Some("user"), item_id: None };
    prepare_message_content(&mut items, origin, &mut metadata, &loaded);
    assert!(matches!(&items[0], ContentItem::InputText { text } if text == "hi"));
    assert!(matches!(&items[1], ContentItem::InputText { text } if text == "image content omitted because remote image URLs are not supported"));
    assert!(matches!(&items[2], ContentItem::InputImage { image_url, detail: Some(ImageDetail::Auto) } if image_url == "data:image/png;base64,RESIZED"));
    assert!(matches!(&items[3], ContentItem::InputImage { image_url, .. } if image_url == "file:///local.png"));
    assert_eq!(metadata.len(), 1);
    assert_eq!(metadata[0].message_role.as_deref(), Some("user"));
    assert_eq!(metadata[0].prepared_width, 2048);
    assert_eq!(metadata[0].source_width, 4000);
}

#[test]
fn response_items_record_their_origin() {
    let mut items = vec![
        ResponseItem::FunctionCallOutput {
            call_id: "call-1".to_string(),
            output: Some(vec![FunctionCallOutputContentItem::InputImage { image_url: "data:image/png;base64,A".to_string(), detail: Some(ImageDetail::Original) }]),
        },
        ResponseItem::Other,
        ResponseItem::CustomToolCallOutput { call_id: "call-2".to_string(), output: None },
    ];
    let metadata = prepare_response_items(&mut items, &loaded);
    assert_eq!(metadata.len(), 1);
    assert_eq!(metadata[0].item_id.as_deref(), Some("call-1"));
    assert!(metadata[0].message_role.is_none());
    assert_eq!(metadata[0].effective_detail, ImageDetailSetting::Original);
    let mut items = vec![ResponseItem::Message {
        role: "user".to_string(),
        content: vec![ContentItem::InputImage { image_url: "data:image/png;base64,A".to_string(), detail: None }],
    }];
    let metadata = prepare_response_items(&mut items, &too_large);
    assert!(metadata.is_empty());
    match &items[0] {
        ResponseItem::Message { content, .. } => assert!(matches!(&content[0], ContentItem::InputText { text }
            if text == "image content omitted because it exceeded the supported size limit; use a smaller image")),
        other => panic!("unexpected {other:?}"),
    }
}
