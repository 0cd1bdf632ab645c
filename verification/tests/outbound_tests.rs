use release_bridge::decimal::parse_u64;
use release_bridge::notification::{build_notification, download_link, NotificationMessage};
use release_bridge::outbound::{gateway_step, GatewayAction, GatewayItem, OutboundClient};
use release_bridge::payload::{Asset, Release};

fn sample_release() -> Release {
    Release {
        assets: vec![Some(sample_asset())],
        assets_url: "https://example.invalid/assets".to_string(),
        author: None,
        body: None,
        created_at: None,
        draft: false,
        html_url: "https://example.invalid/release".to_string(),
        id: 7,
        immutable: false,
        name: None,
        node_id: "r".to_string(),
        prerelease: false,
        published_at: None,
        tag_name: "v1.0.0".to_string(),
        tarball_url: None,
        target_commitish: "main".to_string(),
        updated_at: None,
        upload_url: "https://example.invalid/upload".to_string(),
        url: "https://example.invalid/api/release".to_string(),
        zipball_url: None,
    }
}

fn sample_asset() -> Asset {
    Asset {
        url: "https://example.invalid/a.zip".to_string(),
        browser_download_url: "https://example.invalid/a.zip".to_string(),
        id: 1,
        node_id: "n".to_string(),
        name: "a.zip".to_string(),
        label: None,
        state: "uploaded".to_string(),
        content_type: "application/zip".to_string(),
        size: 10,
        download_count: 0,
        created_at: "2024-01-01T00:00:00Z".to_string(),
        updated_at: "2024-01-01T00:00:00Z".to_string(),
    }
}

#[test]
fn parse_u64_reads_decimal_numbers() {
    assert_eq!(parse_u64("0"), Some(0));
    assert_eq!(parse_u64("1234567890"), Some(1234567890));
    assert_eq!(parse_u64("18446744073709551615"), Some(u64::MAX));
}

#[test]
fn parse_u64_rejects_non_numbers() {
    assert_eq!(parse_u64(""), None);
    assert_eq!(parse_u64("12a"), None);
    assert_eq!(parse_u64("-5"), None);
    assert_eq!(parse_u64(" 12"), None);
    assert_eq!(parse_u64("18446744073709551616"), None);
    assert_eq!(parse_u64("99999999999999999999999"), None);
}

#[test]
fn channel_id_initializes_once() {
    let mut client = OutboundClient::new();
    assert_eq!(client.init_channel_id("123456789"), Ok(()));
    assert_eq!(client.get_channel_id(), Ok(123456789));
    let second = client.init_channel_id("42");
    assert_eq!(second, Err("Channel ID already initialized".to_string()));
    assert_eq!(client.get_channel_id(), Ok(123456789));
}

#[test]
fn invalid_channel_id_is_rejected_and_stores_nothing() {
    let mut client = OutboundClient::new();
    let r = client.init_channel_id("not-a-number");
    assert_eq!(
        r,
        Err("DISCORD_CHANNEL_ID must be a valid number".to_string())
    );
    assert_eq!(
        client.get_channel_id(),
        Err("Channel ID not initialized".to_string())
    );
}

#[test]
fn http_client_initializes_once() {
    let mut client = OutboundClient::new();
    assert_eq!(client.init_http_client("token-one".to_string()), Ok(()));
    assert_eq!(client.get_http_client(), Ok("token-one".to_string()));
    let second = client.init_http_client("token-two".to_string());
    assert_eq!(second, Err("HTTP client already initialized".to_string()));
    assert_eq!(client.get_http_client(), Ok("token-one".to_string()));
}

#[test]
fn send_message_requires_initialization() {
    let mut client = OutboundClient::new();
    let r = client.send_message("hello".to_string());
    assert_eq!(r.err(), Some("Channel ID not initialized".to_string()));
    client.init_channel_id("99").unwrap();
    let r = client.send_message("hello".to_string());
    assert_eq!(r.err(), Some("HTTP client not initialized".to_string()));
    client.init_http_client("token".to_string()).unwrap();
    let prepared = client.send_message("hello".to_string()).unwrap();
    assert_eq!(prepared.channel_id, 99);
    assert_eq!(prepared.content, "hello");
}

#[test]
fn send_embed_targets_the_configured_channel() {
    let mut client = OutboundClient::new();
    client.init_channel_id("7").unwrap();
    client.init_http_client("token".to_string()).unwrap();
    let embed = NotificationMessage {
        title: "t".to_string(),
        color: 0x00FF00,
        fields: vec![],
    };
    let prepared = client.send_embed(embed).unwrap();
    assert_eq!(prepared.channel_id, 7);
    assert_eq!(prepared.embed.title, "t");
    assert_eq!(prepared.embed.color, 0x00FF00);
}

#[test]
fn send_embed_fails_before_initialization() {
    let client = OutboundClient::new();
    let embed = NotificationMessage {
        title: "t".to_string(),
        color: 0,
        fields: vec![],
    };
    let r = client.send_embed(embed);
    assert_eq!(r.err(), Some("Channel ID not initialized".to_string()));
}

#[test]
fn gateway_loop_decisions() {
    assert!(matches!(
        gateway_step(&GatewayItem::Event),
        GatewayAction::DiscardEvent
    ));
    assert!(matches!(
        gateway_step(&GatewayItem::RecoverableError {
            message: "timed out".to_string()
        }),
        GatewayAction::LogAndContinue
    ));
    assert!(matches!(
        gateway_step(&GatewayItem::StreamEnd),
        GatewayAction::Stop
    ));
}

#[test]
fn download_link_has_markdown_form() {
    assert_eq!(
        download_link("https://example.invalid/a.zip"),
        "[Download Link](https://example.invalid/a.zip)"
    );
    assert_eq!(download_link(""), "[Download Link]()");
}

#[test]
fn notification_title_falls_back_for_nameless_releases() {
    let m = build_notification(&sample_release(), 5);
    assert_eq!(m.title, "Unnamed Release");
    assert_eq!(m.color, 5);
    assert_eq!(m.fields.len(), 1);
    assert_eq!(m.fields[0].name, "a.zip");
    assert_eq!(
        m.fields[0].value,
        "[Download Link](https://example.invalid/a.zip)"
    );
}

#[test]
fn notification_of_empty_assets_has_no_fields() {
    let mut release = sample_release();
    release.assets = vec![];
    release.name = Some("Named".to_string());
    let m = build_notification(&release, 0xFFFFFF);
    assert_eq!(m.title, "Named");
    assert_eq!(m.fields.len(), 0);
}
