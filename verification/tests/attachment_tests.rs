use sntry::api::models::event::Attachment;
use sntry::cli::commands::events::attachments::{
    attachment_line, attachment_save_name, attachments_table_lines, choose_attachment, download_message,
    format_size, is_directory_target, saved_name,
};
use sntry::error::SentryCliError;

/// The size text as the float formatting of the tool prints it.
fn float_size(bytes: u64) -> String {
    if bytes < 1024 {
        format!("{} B", bytes)
    } else if bytes < 1024 * 1024 {
        format!("{:.1} KB", bytes as f64 / 1024.0)
    } else {
        format!("{:.1} MB", bytes as f64 / (1024.0 * 1024.0))
    }
}

#[test]
fn format_size_exact_values() {
    assert_eq!(format_size(0), "0 B");
    assert_eq!(format_size(1023), "1023 B");
    assert_eq!(format_size(1024), "1.0 KB");
    assert_eq!(format_size(1536), "1.5 KB");
    assert_eq!(format_size(1024 * 1024), "1.0 MB");
    assert_eq!(format_size(5 * 1024 * 1024 + 512 * 1024), "5.5 MB");
    assert_eq!(format_size(1048575), "1024.0 KB");
}

#[test]
fn format_size_matches_float_formatting_on_ties() {
    // 1.25 KB and 1.75 KB lie exactly between two tenths.
    for bytes in [1280u64, 1792, 2304, 2816, 1024 * 1024 + 256 * 1024, 3 * 1024 * 1024 + 768 * 1024] {
        assert_eq!(format_size(bytes), float_size(bytes), "bytes = {bytes}");
    }
}

#[test]
fn format_size_matches_float_formatting_on_a_range() {
    let mut bytes: u64 = 0;
    while bytes < 3 * 1024 * 1024 {
        assert_eq!(format_size(bytes), float_size(bytes), "bytes = {bytes}");
        bytes += 37;
    }
}

#[test]
fn format_size_matches_float_formatting_on_large_values() {
    let samples = [
        u64::MAX,
        u64::MAX - 1,
        (1u64 << 53) - 1,
        1u64 << 53,
        (1u64 << 53) + 1,
        (1u64 << 54) + 3,
        (1u64 << 63) + 1025,
        0x1234_5678_9abc_def0,
        0xffff_ffff_ffff_f800,
        0xffff_ffff_ffff_fbff,
        0xffff_ffff_ffff_fc00,
        1_000_000_000_000,
        123_456_789_012_345,
    ];
    for bytes in samples {
        assert_eq!(format_size(bytes), float_size(bytes), "bytes = {bytes}");
    }
    let mut x: u64 = 0x9e37_79b9_7f4a_7c15;
    for _ in 0..20000 {
        x ^= x << 13;
        x ^= x >> 7;
        x ^= x << 17;
        let shift = (x % 64) as u32;
        let bytes = x >> shift;
        assert_eq!(format_size(bytes), float_size(bytes), "bytes = {bytes}");
    }
}

fn attachment(id: &str, name: &str, kind: &str, size: Option<u64>) -> Attachment {
    Attachment {
        id: id.to_string(),
        attachment_type: kind.to_string(),
        name: name.to_string(),
        mimetype: None,
        size,
        date_created: None,
        sha1: None,
        event_id: None,
    }
}

#[test]
fn attachments_table_lists_each_attachment() {
    let list = vec![
        attachment("1", "log.txt", "event.attachment", Some(2048)),
        attachment("2", "crash.dmp", "event.minidump", None),
    ];
    let lines = attachments_table_lines("ev1", &list);
    assert_eq!(lines.len(), 4);
    assert_eq!(lines[0], format!("{:<12} {:<30} {:<20} {:<10}", "ID", "Name", "Type", "Size"));
    assert_eq!(lines[1], "-".repeat(75));
    assert_eq!(lines[2], format!("{:<12} {:<30} {:<20} {:<10}", "1", "log.txt", "event.attachment", "2.0 KB"));
    assert_eq!(lines[3], format!("{:<12} {:<30} {:<20} {:<10}", "2", "crash.dmp", "event.minidump", "?"));
    assert_eq!(attachment_line(&list[0]), lines[2]);
}

#[test]
fn attachments_table_without_attachments() {
    let lines = attachments_table_lines("abc123", &Vec::new());
    assert_eq!(lines, vec!["No attachments found for event abc123".to_string()]);
}

#[test]
fn attachments_table_keeps_long_cells_whole() {
    let long = "n".repeat(40);
    let list = vec![attachment("id", &long, "t", Some(10))];
    let lines = attachments_table_lines("e", &list);
    assert_eq!(lines[2], format!("{:<12} {:<30} {:<20} {:<10}", "id", long, "t", "10 B"));
}

#[test]
fn choose_attachment_without_attachments() {
    match choose_attachment(&Vec::new(), None) {
        Err(SentryCliError::NotFound(m)) => assert_eq!(m, "No attachments found for this event"),
        _ => panic!("expected not found"),
    }
    match choose_attachment(&Vec::new(), Some("1")) {
        Err(SentryCliError::NotFound(m)) => assert_eq!(m, "No attachments found for this event"),
        _ => panic!("expected not found"),
    }
}

#[test]
fn choose_attachment_by_id() {
    let list = vec![
        attachment("1", "a.txt", "event.attachment", None),
        attachment("2", "b.txt", "event.attachment", None),
    ];
    assert_eq!(choose_attachment(&list, Some("2")).ok(), Some(1));
    match choose_attachment(&list, Some("3")) {
        Err(SentryCliError::NotFound(m)) => assert_eq!(m, "Attachment 3 not found"),
        _ => panic!("expected not found"),
    }
}

#[test]
fn choose_attachment_prefers_first_dump() {
    let list = vec![
        attachment("1", "a.txt", "event.attachment", None),
        attachment("2", "crash.mdmp", "event.attachment", None),
        attachment("3", "other", "event.minidump", None),
    ];
    assert_eq!(choose_attachment(&list, None).ok(), Some(1));
    let by_type = vec![
        attachment("1", "a.txt", "event.attachment", None),
        attachment("2", "mini", "event.minidump", None),
    ];
    assert_eq!(choose_attachment(&by_type, None).ok(), Some(1));
    let by_dmp = vec![attachment("1", "a.txt", "x", None), attachment("2", "core.dmp", "x", None)];
    assert_eq!(choose_attachment(&by_dmp, None).ok(), Some(1));
}

#[test]
fn choose_attachment_falls_back_to_first() {
    let list = vec![attachment("1", "a.txt", "event.attachment", None), attachment("2", "b.dmpx", "x", None)];
    assert_eq!(choose_attachment(&list, None).ok(), Some(0));
}

#[test]
fn saved_name_defaults_to_id() {
    assert_eq!(saved_name(Some("x.dmp".to_string()), "9"), "x.dmp");
    assert_eq!(saved_name(None, "9"), "attachment-9");
}

#[test]
fn attachment_save_name_takes_last_component() {
    assert_eq!(attachment_save_name(&attachment("1", "dir/sub/crash.dmp", "x", None)), "crash.dmp");
    assert_eq!(attachment_save_name(&attachment("1", "minidump.dmp", "x", None)), "minidump.dmp");
    assert_eq!(attachment_save_name(&attachment("1", "dir/", "x", None)), "dir");
    assert_eq!(attachment_save_name(&attachment("1", "../../etc/passwd", "x", None)), "passwd");
    assert_eq!(attachment_save_name(&attachment("7", "..", "x", None)), "attachment-7");
    assert_eq!(attachment_save_name(&attachment("8", "/", "x", None)), "attachment-8");
    assert_eq!(attachment_save_name(&attachment("9", "", "x", None)), "attachment-9");
}

#[test]
fn directory_target_when_dir_or_trailing_slash() {
    assert!(is_directory_target("out/", false));
    assert!(is_directory_target("out", true));
    assert!(!is_directory_target("out/file.dmp", false));
}

#[test]
fn download_message_text() {
    assert_eq!(
        download_message("crash.dmp", 1536, "/tmp/crash.dmp"),
        "Downloaded crash.dmp (1.5 KB) to /tmp/crash.dmp"
    );
}

/// The name's last part after its last `/`, trailing `/` and `/.` set aside.
fn last_path_part(name: &str) -> String {
    let mut t: Vec<char> = name.chars().collect();
    loop {
        if t.last() == Some(&'/') {
            t.pop();
        } else if t.len() >= 2 && t[t.len() - 1] == '.' && t[t.len() - 2] == '/' {
            t.truncate(t.len() - 2);
        } else {
            break;
        }
    }
    let t: String = t.into_iter().collect();
    match t.rfind('/') {
        Some(i) => t[i + 1..].to_string(),
        None => t,
    }
}

fn is_plain_file_name(p: &str) -> bool {
    !p.is_empty() && !p.contains('/') && !p.contains('\\') && !p.contains(':') && p != "." && p != ".."
}

#[test]
fn save_name_is_the_last_component() {
    assert_eq!(attachment_save_name(&attachment("1", "logs/report.txt", "x", None)), "report.txt");
    assert_eq!(attachment_save_name(&attachment("1", "a/b/./", "x", None)), "b");
    assert_eq!(attachment_save_name(&attachment("1", "/x/y//", "x", None)), "y");
    let alphabet = ['a', '/', '.', ':', '\\'];
    let mut names = vec![String::new()];
    let mut frontier = vec![String::new()];
    for _ in 0..6 {
        let mut next = Vec::new();
        for n in &frontier {
            for c in alphabet {
                let mut m = n.clone();
                m.push(c);
                next.push(m);
            }
        }
        names.extend(next.iter().cloned());
        frontier = next;
    }
    for name in names {
        let part = last_path_part(&name);
        let found = std::path::Path::new(&name).file_name().map(|n| n.to_string_lossy().to_string());
        let saved = attachment_save_name(&attachment("7", &name, "x", None));
        if is_plain_file_name(&part) {
            assert_eq!(found.as_deref(), Some(part.as_str()), "name {name:?}");
            assert_eq!(saved, part, "name {name:?}");
        } else if found.is_none() {
            assert_eq!(saved, "attachment-7", "name {name:?}");
        }
    }
}
