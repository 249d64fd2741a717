use sniff::channel::Channel;
use sniff::model::{
    AppDetails, DocumentDetails, DownloadBundle, Item, SerializableDetailsResponse,
};
use sniff::naming::{assemble_download_info, build_suggested_filename, extract_naming, sanitize};

fn discord_doc() -> SerializableDetailsResponse {
    SerializableDetailsResponse {
        item: Some(Item {
            id: Some("com.discord".to_string()),
            sub_id: Some("com.discord".to_string()),
            item_type: Some(1),
            category_id: Some(3),
            title: Some("Discord - Talk, Play, Hang Out".to_string()),
            creator: Some("Discord Inc.".to_string()),
            description_html: None,
            promotional_description: None,
            mature: Some(false),
            available_for_preregistration: None,
            force_shareability: None,
            offer: Vec::new(),
            details: Some(DocumentDetails {
                app_details: Some(AppDetails {
                    developer_name: Some("Discord Inc.".to_string()),
                    version_code: Some(289020),
                    version_string: Some("289.20 - Stable".to_string()),
                    info_download_size: Some(180070862),
                    developer_email: None,
                    developer_website: None,
                    info_download: None,
                    package_name: Some("com.discord".to_string()),
                    recent_changes_html: None,
                    info_updated_on: None,
                    target_sdk_version: Some(35),
                }),
            }),
            app_info: None,
        }),
        footer_html: Some("All prices include VAT.".to_string()),
        enable_reviews: Some(true),
    }
}

#[test]
fn sanitize_keeps_alphanumerics_dots_dashes() {
    assert_eq!(sanitize("Discord"), "Discord");
    assert_eq!(sanitize("289.20"), "289.20");
    assert_eq!(sanitize("a-b.c9"), "a-b.c9");
}

#[test]
fn sanitize_masks_and_collapses() {
    assert_eq!(sanitize("a b"), "a_b");
    // two masked characters make a doubled underscore, which collapses
    assert_eq!(sanitize("a  b"), "a_b");
    assert_eq!(sanitize("a!!!b"), "a__b");
    assert_eq!(sanitize("Hello, World!"), "Hello_World");
}

#[test]
fn sanitize_trims_edges() {
    assert_eq!(sanitize(" x "), "x");
    assert_eq!(sanitize("___"), "");
    assert_eq!(sanitize(""), "");
    assert_eq!(sanitize("!?"), "");
}

#[test]
fn suggested_filename_exact() {
    assert_eq!(
        build_suggested_filename("Sniff", Some("Discord"), "Stable", Some("289.20 - Stable")),
        "Sniff_Discord_Stable_289.20.apk"
    );
}

#[test]
fn suggested_filename_without_version_or_name() {
    assert_eq!(
        build_suggested_filename("Sniff", None, "Beta", None),
        "Sniff_App_Beta.apk"
    );
    assert_eq!(
        build_suggested_filename("My Brand", Some("A B"), "Alpha", Some(" 1.0 ")),
        "My_Brand_A_B_Alpha_1.0.apk"
    );
}

#[test]
fn extract_naming_cleans_title_keeps_raw_version() {
    let naming = extract_naming(&discord_doc());
    assert_eq!(naming.app_name, Some("Discord".to_string()));
    assert_eq!(naming.version_string, Some("289.20 - Stable".to_string()));
    assert_eq!(naming.version_code, Some(289020));
}

#[test]
fn extract_naming_tolerates_partial_documents() {
    let empty = SerializableDetailsResponse { item: None, footer_html: None, enable_reviews: None };
    let naming = extract_naming(&empty);
    assert_eq!(naming.app_name, None);
    assert_eq!(naming.version_string, None);
    assert_eq!(naming.version_code, None);
}

#[test]
fn assemble_download_info_fields() {
    let naming = extract_naming(&discord_doc());
    let bundle = DownloadBundle {
        main_apk_url: Some("https://example.test/main".to_string()),
        splits: vec![
            ("config.arm64_v8a".to_string(), "https://example.test/s1".to_string()),
            ("config.en".to_string(), "https://example.test/s2".to_string()),
        ],
        additional_files: vec![(
            "main.1234.com.discord.obb".to_string(),
            "https://example.test/a1".to_string(),
        )],
    };
    let info = assemble_download_info("Sniff", naming, Channel::Stable, bundle);
    assert_eq!(
        info.suggested_filename,
        Some("Sniff_Discord_Stable_289.20.apk".to_string())
    );
    assert_eq!(info.app_name, Some("Discord".to_string()));
    assert_eq!(info.version_string, Some("289.20 - Stable".to_string()));
    assert_eq!(info.version_code, Some(289020));
    assert_eq!(info.channel, Some("stable".to_string()));
    assert_eq!(info.main_apk_url, Some("https://example.test/main".to_string()));
    assert_eq!(info.splits.len(), 2);
    assert_eq!(info.splits[0].name, Some("config.arm64_v8a".to_string()));
    assert_eq!(info.splits[0].download_url, Some("https://example.test/s1".to_string()));
    assert_eq!(info.splits[1].name, Some("config.en".to_string()));
    assert_eq!(info.additional_files.len(), 1);
    assert_eq!(
        info.additional_files[0].filename,
        Some("main.1234.com.discord.obb".to_string())
    );
    assert_eq!(
        info.additional_files[0].download_url,
        Some("https://example.test/a1".to_string())
    );
}
