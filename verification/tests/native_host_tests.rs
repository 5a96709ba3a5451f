use inno_creed::native_host::{
    ack, byte_order_from_probe, cache_entry, encode_cache_entry, encode_manifest, encode_reply, extension_cache_path, read_host_message, clear_cache_outcome, default_extension_id_text, frame_message, host_mode,
    install, manifest_path, message_length, native_byte_order, write_cache_failure, Ack,
    ByteOrder, HostCommand, HostMessage, HostMode, Removal,
};
use inno_creed::platform::Platform;

fn strings(v: &[&str]) -> Vec<String> {
    v.iter().map(|s| s.to_string()).collect()
}

#[test]
fn frame_has_length_prefix_in_both_orders() {
    let body = br#"{"ok":true}"#;
    let le = frame_message(ByteOrder::Little, body);
    assert_eq!(&le[..4], &[11, 0, 0, 0]);
    assert_eq!(&le[4..], body);
    let be = frame_message(ByteOrder::Big, body);
    assert_eq!(&be[..4], &[0, 0, 0, 11]);
    assert_eq!(&be[4..], body);
    assert_eq!(frame_message(ByteOrder::Little, b""), vec![0, 0, 0, 0]);
}

#[test]
fn prefix_decodes_to_length() {
    assert_eq!(message_length(ByteOrder::Little, [0x10, 0x02, 0, 0]), 0x210);
    assert_eq!(message_length(ByteOrder::Big, [0, 0, 0x02, 0x10]), 0x210);
    assert_eq!(message_length(ByteOrder::Little, [0xff, 0xff, 0xff, 0xff]), u32::MAX);
    assert_eq!(message_length(ByteOrder::Big, [1, 2, 3, 4]), 0x0102_0304);
}

#[test]
fn frame_round_trip() {
    let body: Vec<u8> = (0..300u32).map(|i| (i % 251) as u8).collect();
    for order in [ByteOrder::Little, ByteOrder::Big] {
        let f = frame_message(order, &body);
        let prefix = [f[0], f[1], f[2], f[3]];
        assert_eq!(message_length(order, prefix) as usize, body.len());
        assert_eq!(&f[4..], &body[..]);
    }
}

#[test]
fn probe_decides_order() {
    assert_eq!(byte_order_from_probe(1), ByteOrder::Little);
    assert_eq!(byte_order_from_probe(0x0100_0000), ByteOrder::Big);
    assert_eq!(byte_order_from_probe(u32::from_ne_bytes([1, 0, 0, 0])), native_byte_order());
}

#[test]
fn native_order_is_the_machine_order() {
    let expected = if u32::from_ne_bytes([1, 0, 0, 0]) == 1 {
        ByteOrder::Little
    } else {
        ByteOrder::Big
    };
    assert_eq!(native_byte_order(), expected);
    let order = native_byte_order();
    let f = frame_message(order, b"abc");
    assert_eq!(u32::from_ne_bytes([f[0], f[1], f[2], f[3]]), 3);
}

fn msg(clear: Option<bool>, at: Option<&str>, hk: Option<&str>) -> HostMessage {
    HostMessage {
        clear,
        auth_token: at.map(|s| s.to_string()),
        sign_key: hk.map(|s| s.to_string()),
    }
}

#[test]
fn clear_wins_over_credentials() {
    assert_eq!(msg(Some(true), Some("a"), Some("k")).command(), HostCommand::ClearCache);
    assert_eq!(msg(Some(true), None, None).command(), HostCommand::ClearCache);
}

#[test]
fn credentials_are_stored_when_both_present() {
    assert_eq!(
        msg(Some(false), Some("tok"), Some("key")).command(),
        HostCommand::WriteCache { auth_token: "tok".to_string(), sign_key: "key".to_string() }
    );
    assert_eq!(
        msg(None, Some("tok"), Some("key")).command(),
        HostCommand::WriteCache { auth_token: "tok".to_string(), sign_key: "key".to_string() }
    );
}

#[test]
fn missing_or_empty_credentials_are_refused() {
    let refused = HostCommand::Reject("authToken/signKey 누락 또는 빈 값".to_string());
    assert_eq!(msg(None, Some("tok"), None).command(), refused);
    assert_eq!(msg(None, None, Some("key")).command(), refused);
    assert_eq!(msg(None, Some(""), Some("key")).command(), refused);
    assert_eq!(msg(None, Some("tok"), Some("")).command(), refused);
    assert_eq!(msg(Some(false), None, None).command(), refused);
}

#[test]
fn acknowledgements() {
    assert_eq!(ack(Ok(())), Ack { ok: true, error: None });
    assert_eq!(
        ack(Err("boom".to_string())),
        Ack { ok: false, error: Some("boom".to_string()) }
    );
}

#[test]
fn clearing_a_missing_cache_is_fine() {
    assert_eq!(clear_cache_outcome("/c.json", Removal::Removed), Ok(()));
    assert_eq!(clear_cache_outcome("/c.json", Removal::NotFound), Ok(()));
    assert_eq!(
        clear_cache_outcome("/c.json", Removal::Failed),
        Err("캐시 파일 삭제 실패: /c.json".to_string())
    );
    assert_eq!(write_cache_failure("/c.json"), "캐시 파일 쓰기 실패: /c.json");
}

#[test]
fn cache_entry_stamp() {
    let e = cache_entry("a".to_string(), "k".to_string(), Some(1_700_000_000_000));
    assert_eq!(e.captured_at_ms, 1_700_000_000_000);
    assert_eq!(e.auth_token, "a");
    assert_eq!(e.sign_key, "k");
    assert_eq!(cache_entry("a".to_string(), "k".to_string(), None).captured_at_ms, 0);
}

#[test]
fn manifest_path_only_on_windows() {
    assert_eq!(manifest_path(Platform::Other, Some("C:\\L".to_string())), None);
    assert_eq!(manifest_path(Platform::Windows, None), None);
    let p = manifest_path(Platform::Windows, Some("C:\\L".to_string())).unwrap();
    assert!(p.starts_with("C:\\L\\inno-creed"));
    assert!(p.ends_with("com.innogrid.inno_creed.json"));
    assert_eq!(p.len(), "C:\\L\\inno-creed".len() + 1 + "com.innogrid.inno_creed.json".len());
}

#[test]
fn host_install_errors() {
    assert_eq!(
        install(Platform::Other, "id", Some("x".into()), Some("L".into())).unwrap_err(),
        "익스텐션 native host 등록은 현재 Windows만 지원합니다"
    );
    assert_eq!(
        install(Platform::Windows, "id", None, None).unwrap_err(),
        "실행파일 경로 취득 실패"
    );
    assert_eq!(
        install(Platform::Windows, "id", Some("x".into()), None).unwrap_err(),
        "LOCALAPPDATA 없음"
    );
}

#[test]
fn host_install_plan() {
    let plan = install(
        Platform::Windows,
        "abcdef",
        Some("C:\\T\\inno-creed.exe".into()),
        Some("C:\\L".into()),
    )
    .unwrap();
    assert_eq!(plan.manifest_dir, "C:\\L\\inno-creed");
    assert!(plan.manifest_path.ends_with("com.innogrid.inno_creed.json"));
    assert_eq!(plan.manifest.name, "com.innogrid.inno_creed");
    assert_eq!(plan.manifest.description, "inno-creed 크레덴셜 브릿지 native messaging host");
    assert_eq!(plan.manifest.path, "C:\\T\\inno-creed.exe");
    assert_eq!(plan.manifest.transport, "stdio");
    assert_eq!(plan.manifest.allowed_origins, vec!["chrome-extension://abcdef/"]);
    assert_eq!(plan.registrations.len(), 2);
    let chrome = &plan.registrations[0];
    assert_eq!(chrome.browser, "Chrome");
    assert_eq!(
        chrome.key,
        "HKCU\\Software\\Google\\Chrome\\NativeMessagingHosts\\com.innogrid.inno_creed"
    );
    assert_eq!(
        chrome.args,
        vec!["add".to_string(), chrome.key.clone(), "/ve".into(), "/d".into(), plan.manifest_path.clone(), "/f".into()]
    );
    assert_eq!(chrome.failure_message, format!("Chrome 레지스트리 등록 실패: {}", chrome.key));
    assert_eq!(chrome.spawn_failure_message, "reg.exe 실행 실패(Chrome)");
    let edge = &plan.registrations[1];
    assert_eq!(edge.browser, "Edge");
    assert_eq!(
        edge.key,
        "HKCU\\Software\\Microsoft\\Edge\\NativeMessagingHosts\\com.innogrid.inno_creed"
    );
    assert_eq!(edge.spawn_failure_message, "reg.exe 실행 실패(Edge)");
    assert_eq!(edge.args[4], plan.manifest_path);
    assert_eq!(manifest_path(Platform::Windows, Some("C:\\L".into())), Some(plan.manifest_path.clone()));
}

#[test]
fn program_modes() {
    assert_eq!(host_mode(&strings(&[])), HostMode::Serve);
    assert_eq!(host_mode(&strings(&["--version"])), HostMode::Version);
    assert_eq!(host_mode(&strings(&["x", "-V"])), HostMode::Version);
    assert_eq!(host_mode(&strings(&["--native-host", "--version"])), HostMode::Version);
    assert_eq!(host_mode(&strings(&["chrome-extension://hpab/"])), HostMode::NativeHost);
    assert_eq!(host_mode(&strings(&["moz-extension://x"])), HostMode::NativeHost);
    assert_eq!(host_mode(&strings(&["--native-host"])), HostMode::NativeHost);
    assert_eq!(
        host_mode(&strings(&["--install-extension-host", "chrome-extension://x/"])),
        HostMode::NativeHost
    );
    assert_eq!(
        host_mode(&strings(&["--install-extension-host", "myid"])),
        HostMode::InstallExtensionHost("myid".to_string())
    );
    assert_eq!(
        host_mode(&strings(&["--install-extension-host"])),
        HostMode::InstallExtensionHost(default_extension_id_text().to_string())
    );
    assert_eq!(
        host_mode(&strings(&["a", "--install-extension-host", "one", "--install-extension-host", "two"])),
        HostMode::InstallExtensionHost("one".to_string())
    );
    assert_eq!(host_mode(&strings(&["--versionx", "-v"])), HostMode::Serve);
    assert_eq!(default_extension_id_text(), "hpabcmnjaahhdenpdmfjlmkfjljdldbf");
}

#[test]
fn reading_a_message() {
    let body = br#"{"authToken":"tok","signKey":"key","clear":false,"x":1}"#;
    let f = frame_message(ByteOrder::Little, body);
    let m = read_host_message(ByteOrder::Little, &f[..4], &f[4..]).unwrap();
    assert_eq!(m, msg(Some(false), Some("tok"), Some("key")));

    let body = br#"{"clear":"yes","authToken":3}"#;
    let f = frame_message(ByteOrder::Big, body);
    let m = read_host_message(ByteOrder::Big, &f[..4], &f[4..]).unwrap();
    assert_eq!(m, msg(None, None, None));
    assert_eq!(m.command(), HostCommand::Reject("authToken/signKey 누락 또는 빈 값".to_string()));
}

#[test]
fn reading_errors() {
    assert_eq!(
        read_host_message(ByteOrder::Little, &[1, 0], &[]).unwrap_err(),
        "stdin에서 길이 프리픽스 읽기 실패(브라우저가 아닌 다른 곳에서 실행한 건 아닌지)"
    );
    assert_eq!(
        read_host_message(ByteOrder::Little, &[5, 0, 0, 0], b"{}").unwrap_err(),
        "stdin 본문 읽기 실패"
    );
    assert_eq!(
        read_host_message(ByteOrder::Little, &[3, 0, 0, 0], b"{x}").unwrap_err(),
        "네이티브 메시지 JSON 파싱 실패"
    );
    let m = read_host_message(ByteOrder::Little, &[2, 0, 0, 0], b"[]").unwrap();
    assert_eq!(m, msg(None, None, None));
}

#[test]
fn writing_the_reply() {
    let out = encode_reply(ByteOrder::Little, &ack(Ok(())));
    assert_eq!(&out[..4], &[11, 0, 0, 0]);
    assert_eq!(&out[4..], br#"{"ok":true}"#);
    let out = encode_reply(ByteOrder::Big, &ack(Err("nope".to_string())));
    let body = &out[4..];
    assert_eq!(message_length(ByteOrder::Big, [out[0], out[1], out[2], out[3]]) as usize, body.len());
    let v: serde_json::Value = serde_json::from_slice(body).unwrap();
    assert_eq!(v.get("ok").and_then(serde_json::Value::as_bool), Some(false));
    assert_eq!(v.get("error").and_then(serde_json::Value::as_str), Some("nope"));
    assert_eq!(v.as_object().map(|o| o.len()), Some(2));
}

#[test]
fn cache_path_override() {
    assert_eq!(
        extension_cache_path(Some("/x/c.json".into()), Some("/d/c.json".into())),
        Some("/x/c.json".to_string())
    );
    assert_eq!(extension_cache_path(None, Some("/d/c.json".into())), Some("/d/c.json".to_string()));
    assert_eq!(extension_cache_path(None, None), None);
}

#[test]
fn manifest_file_content() {
    let plan = install(
        Platform::Windows,
        "abc",
        Some("C:\\T\\inno-creed.exe".into()),
        Some("C:\\L".into()),
    )
    .unwrap();
    let bytes = encode_manifest(&plan.manifest);
    assert_eq!(bytes.iter().filter(|b| **b == b'\n').count(), 8);
    let v: serde_json::Value = serde_json::from_slice(&bytes).unwrap();
    let o = v.as_object().unwrap();
    assert_eq!(o.len(), 5);
    assert_eq!(v.get("name").and_then(serde_json::Value::as_str), Some("com.innogrid.inno_creed"));
    assert_eq!(
        v.get("description").and_then(serde_json::Value::as_str),
        Some("inno-creed 크레덴셜 브릿지 native messaging host")
    );
    assert_eq!(v.get("path").and_then(serde_json::Value::as_str), Some("C:\\T\\inno-creed.exe"));
    assert_eq!(v.get("type").and_then(serde_json::Value::as_str), Some("stdio"));
    let origins = v.get("allowed_origins").and_then(serde_json::Value::as_array).unwrap();
    assert_eq!(origins.len(), 1);
    assert_eq!(origins[0].as_str(), Some("chrome-extension://abc/"));
}

#[test]
fn cache_file_content() {
    let bytes = encode_cache_entry(&cache_entry("tok".into(), "key".into(), Some(1234)));
    assert!(bytes.contains(&b'\n'));
    let v: serde_json::Value = serde_json::from_slice(&bytes).unwrap();
    assert_eq!(v.as_object().map(|o| o.len()), Some(3));
    assert_eq!(v.get("authToken").and_then(serde_json::Value::as_str), Some("tok"));
    assert_eq!(v.get("signKey").and_then(serde_json::Value::as_str), Some("key"));
    assert_eq!(v.get("capturedAtMs").and_then(serde_json::Value::as_u64), Some(1234));
    let v: serde_json::Value =
        serde_json::from_slice(&encode_cache_entry(&cache_entry("a".into(), "b".into(), None))).unwrap();
    assert_eq!(v.get("capturedAtMs").and_then(serde_json::Value::as_u64), Some(0));
}

#[test]
fn only_object_messages_carry_members() {
    for body in [&b"3"[..], b"\"clear\"", b"null", b"[true]"] {
        let m = read_host_message(ByteOrder::Little, &(body.len() as u32).to_le_bytes(), body).unwrap();
        assert_eq!(m, msg(None, None, None));
    }
    let body = br#"{"clear":false,"clear":true}"#;
    let m = read_host_message(ByteOrder::Little, &(body.len() as u32).to_le_bytes(), body).unwrap();
    assert_eq!(m.clear, Some(true));
}
