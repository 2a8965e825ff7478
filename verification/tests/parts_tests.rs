use gemini_image_mcp::error::McpError;
use gemini_image_mcp::parts::{
    build_analyze_parts, build_compose_parts, build_edit_parts, build_generate_parts,
    build_inpaint_parts, build_refine_parts, build_style_transfer_parts, validate_compose_input,
    validate_generate_input, validate_inpaint_input, AnalyzeImageInput, ComposeImagesInput,
    ContentPart, EditImageInput, GenerateImageInput, InpaintImageInput, RefineImageInput,
    StyleTransferInput,
};

fn expect_text(part: &ContentPart, expected: &str) {
    match part {
        ContentPart::Text(t) => assert_eq!(t, expected),
        other => panic!("expected text part {expected:?}, got {other:?}"),
    }
}

fn expect_image(part: &ContentPart, mime: &str, data: &str) {
    match part {
        ContentPart::InlineImage { mime_type, data: d } => {
            assert_eq!(mime_type, mime);
            assert_eq!(d, data);
        }
        other => panic!("expected image part, got {other:?}"),
    }
}

#[test]
fn test_inpaint_mask_prefix_and_part_order() {
    let input = InpaintImageInput {
        image_source: "./test/image.jpg".to_string(),
        system_prompt: None,
        user_prompt: "add a dog".to_string(),
        mask_description: Some("the cat".to_string()),
        output_path: "./test/output.png".to_string(),
    };
    let parts = build_inpaint_parts(&input, "image/jpeg".to_string(), "DATA".to_string());
    assert_eq!(parts.len(), 2);
    expect_text(&parts[0], "Focus on the region containing 'the cat'. add a dog");
    expect_image(&parts[1], "image/jpeg", "DATA");
}

#[test]
fn test_inpaint_without_mask_uses_prompt_verbatim() {
    let input = InpaintImageInput {
        image_source: "./test/image.jpg".to_string(),
        system_prompt: Some("Guide".to_string()),
        user_prompt: "Replace background".to_string(),
        mask_description: None,
        output_path: "./test/output.png".to_string(),
    };
    let parts = build_inpaint_parts(&input, "image/jpeg".to_string(), "DATA".to_string());
    assert_eq!(parts.len(), 3);
    expect_text(&parts[0], "Guide");
    expect_text(&parts[1], "Replace background");
    expect_image(&parts[2], "image/jpeg", "DATA");
}

#[test]
fn test_analyze_part_order_and_default_prompt() {
    let input = AnalyzeImageInput {
        image_source: "./cat.jpg".to_string(),
        system_prompt: Some("sys".to_string()),
        user_prompt: None,
    };
    let parts = build_analyze_parts(&input, "image/jpeg".to_string(), "IMG".to_string());
    assert_eq!(parts.len(), 3);
    expect_text(&parts[0], "sys");
    expect_image(&parts[1], "image/jpeg", "IMG");
    expect_text(&parts[2], "Caption this image.");
}

#[test]
fn test_generate_parts() {
    let input = GenerateImageInput {
        system_prompt: None,
        user_prompt: "A sunset".to_string(),
        output_path: "./out.png".to_string(),
    };
    let parts = build_generate_parts(&input);
    assert_eq!(parts.len(), 1);
    expect_text(&parts[0], "A sunset");
}

#[test]
fn test_edit_parts_prompt_before_image() {
    let input = EditImageInput {
        image_source: "./cat.jpg".to_string(),
        system_prompt: None,
        user_prompt: "Add a hat".to_string(),
        output_path: "./out.png".to_string(),
    };
    let parts = build_edit_parts(&input, "image/jpeg".to_string(), "IMG".to_string());
    assert_eq!(parts.len(), 2);
    expect_text(&parts[0], "Add a hat");
    expect_image(&parts[1], "image/jpeg", "IMG");
}

#[test]
fn test_style_transfer_parts_with_default_prompt() {
    let input = StyleTransferInput {
        source_image: "./a.jpg".to_string(),
        style_image: "./b.jpg".to_string(),
        system_prompt: None,
        user_prompt: None,
        output_path: "./out.png".to_string(),
    };
    let parts = build_style_transfer_parts(
        &input,
        "image/jpeg".to_string(),
        "SRC".to_string(),
        "image/png".to_string(),
        "STY".to_string(),
    );
    assert_eq!(parts.len(), 3);
    expect_image(&parts[0], "image/jpeg", "SRC");
    expect_image(&parts[1], "image/png", "STY");
    expect_text(&parts[2], "Apply the style of the second image to the first image");
}

#[test]
fn test_compose_parts_with_empty_secondary_list() {
    let input = ComposeImagesInput {
        primary_image: "./p.jpg".to_string(),
        secondary_images: Vec::new(),
        system_prompt: None,
        user_prompt: "Show only primary".to_string(),
        output_path: "./out.png".to_string(),
    };
    assert!(validate_compose_input(&input).is_ok());
    let parts = build_compose_parts(
        &input,
        "image/jpeg".to_string(),
        "PRI".to_string(),
        &Vec::new(),
    );
    assert_eq!(parts.len(), 2);
    expect_image(&parts[0], "image/jpeg", "PRI");
    expect_text(&parts[1], "Show only primary");
}

#[test]
fn test_compose_parts_orders_secondaries() {
    let input = ComposeImagesInput {
        primary_image: "./p.jpg".to_string(),
        secondary_images: vec!["./s1.jpg".to_string(), "./s2.jpg".to_string()],
        system_prompt: Some("compose".to_string()),
        user_prompt: "Create a collage".to_string(),
        output_path: "./out.png".to_string(),
    };
    let secondaries = vec![
        ("image/png".to_string(), "S1".to_string()),
        ("image/gif".to_string(), "S2".to_string()),
    ];
    let parts = build_compose_parts(&input, "image/jpeg".to_string(), "PRI".to_string(), &secondaries);
    assert_eq!(parts.len(), 5);
    expect_text(&parts[0], "compose");
    expect_image(&parts[1], "image/jpeg", "PRI");
    expect_image(&parts[2], "image/png", "S1");
    expect_image(&parts[3], "image/gif", "S2");
    expect_text(&parts[4], "Create a collage");
}

#[test]
fn test_refine_parts_label_history_from_one() {
    let input = RefineImageInput {
        image_source: "./draft.jpg".to_string(),
        system_prompt: None,
        user_prompt: "Make it better".to_string(),
        conversation_history: Some(vec![
            "adjusted colors".to_string(),
            "improved lighting".to_string(),
        ]),
        output_path: "./out.png".to_string(),
    };
    let parts = build_refine_parts(&input, "image/jpeg".to_string(), "IMG".to_string());
    assert_eq!(parts.len(), 4);
    expect_text(&parts[0], "Previous iteration 1: adjusted colors");
    expect_text(&parts[1], "Previous iteration 2: improved lighting");
    expect_text(&parts[2], "Make it better");
    expect_image(&parts[3], "image/jpeg", "IMG");
}

#[test]
fn test_validate_generate_checks_path_before_system_prompt() {
    let input = GenerateImageInput {
        system_prompt: Some("s".repeat(3000)),
        user_prompt: "ok".to_string(),
        output_path: "bad.txt".to_string(),
    };
    match validate_generate_input(&input) {
        Err(McpError::InvalidInput(m)) => {
            assert!(m.contains("Unsupported output file extension"));
        }
        other => panic!("expected InvalidInput, got {other:?}"),
    }
}

#[test]
fn test_validate_inpaint_rejects_bad_source_extension() {
    let input = InpaintImageInput {
        image_source: "invalid_file.txt".to_string(),
        system_prompt: None,
        user_prompt: "Test prompt".to_string(),
        mask_description: None,
        output_path: "./test_out.png".to_string(),
    };
    match validate_inpaint_input(&input) {
        Err(McpError::InvalidInput(m)) => {
            assert!(m.contains("Unsupported file extension"));
        }
        other => panic!("expected InvalidInput, got {other:?}"),
    }
}
