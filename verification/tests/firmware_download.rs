use bmputil::metadata::firmware_download::FirmwareDownload;

fn download(friendly_name: &str, file_name: &str, uri: &str) -> FirmwareDownload {
    FirmwareDownload::new(friendly_name.into(), file_name.into(), uri.into()).expect("Setup url shouldn't fail")
}

#[test]
fn calculate_release_uri_success() {
    let variant = download(
        "Black Magic Debug for BMP (full)",
        "blackmagic-native-full-v1.10.0.elf",
        "https://github.com/blackmagic-debug/blackmagic/releases/download/v1.10.0/blackmagic-native-v1_10_0.elf",
    );

    let res = variant.build_release_uri("v1.10.0");

    match res {
        Ok(url) => assert_eq!(
            url::Url::parse(&url).unwrap(),
            url::Url::parse("https://github.com/blackmagic-debug/blackmagic/releases/tag/v1.10.0").unwrap()
        ),
        Err(_) => assert!(false, "Shouldn't return an error"),
    }
}

#[test]
fn calculate_release_uri_error() {
    let variant = download(
        "Black Magic Debug for BMP (full)",
        "blackmagic-native-full-v1.10.0.elf",
        "https://github.com/blackmagic-debug/blackmagic/releases/v1.10.0/blackmagic-native-v1_10_0.elf",
    );

    let res = variant.build_release_uri("error");

    match res {
        Ok(_) => assert!(false, "Result should fail"),
        Err(str) => assert_eq!(str.to_string(), "The provided uri doesn't contain the release segment 'error'"),
    }
}

#[test]
fn calculate_release_uri_release_first_segment_error() {
    let variant = download(
        "Black Magic Debug for BMP (full)",
        "blackmagic-native-full-v1.10.0.elf",
        "https://github.com/v1.2.3",
    );

    let res = variant.build_release_uri("v1.2.3");

    match res {
        Ok(_) => assert!(false, "Result should fail"),
        Err(str) => assert_eq!(str.to_string(), "The release segment 'v1.2.3' can't be the first one"),
    }
}

#[test]
fn calculate_documentation_url_success() {
    let variant = download(
        "Black Magic Debug for BMP (common targets)",
        "blackmagic-native-common-v2.0.0-rc1.elf",
        "https://github.com/blackmagic-debug/blackmagic/releases/download/v2.0.0-rc1/blackmagic-native-v2_0_0-rc1.elf",
    );

    let res = variant.build_documentation_url();

    match res {
        Ok(url) => assert_eq!(
            url::Url::parse(&url).unwrap(),
            url::Url::parse(
                "https://github.com/blackmagic-debug/blackmagic/releases/download/v2.0.0-rc1/blackmagic-native-v2_0_0-rc1.md"
            )
            .unwrap()
        ),
        Err(_) => assert!(false, "Shouldn't return an error"),
    }
}

#[test]
fn documentation_url_needs_an_elf_download() {
    let variant = download("BMP", "blackmagic.bin", "https://example.com/download/v1/blackmagic.bin");
    assert_eq!(
        variant.build_documentation_url(),
        Err("Path extension is not of '\"elf\"', got 'Some(\"bin\")'".to_string())
    );
    let bare = download("BMP", "blackmagic", "https://example.com/download/v1/blackmagic");
    assert_eq!(bare.build_documentation_url(), Err("Path extension is not of '\"elf\"', got 'None'".to_string()));
}

#[test]
fn documentation_url_drops_query_and_fragment() {
    let variant = download("BMP", "bmp.elf", "https://example.com/a/bmp.elf?x=1#top");
    assert_eq!(variant.build_documentation_url(), Ok("https://example.com/a/bmp.md".to_string()));
}

#[test]
fn download_needs_a_web_address() {
    assert!(FirmwareDownload::new("a".into(), "b".into(), "not a url".into()).is_none());
    let no_segments = FirmwareDownload::new("a".into(), "b".into(), "data:text/plain,hello".into()).unwrap();
    assert_eq!(no_segments.try_build_release_uri("v1.0.0"), None);
    assert_eq!(
        download("BMP", "bmp.elf", "https://example.com/download/v1.0.0/bmp.elf").try_build_release_uri("v1.0.0"),
        Some(Ok("https://example.com/tag/v1.0.0".to_string()))
    );
    let d = download("name", "file.elf", "https://example.com/file.elf");
    assert_eq!(d.friendly_name(), "name");
    assert_eq!(d.file_name(), "file.elf");
    assert_eq!(d.uri(), "https://example.com/file.elf");
}
