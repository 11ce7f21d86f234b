use vvconvert::tools::{
    app_data_dir_error, archive_removed_message, check_content_length, check_download_length,
    common_locations, download_failed_message, download_report, download_url, executable_name,
    ffmpeg_downloads, ffprobe_args, found_message, is_directory_entry, metadata_from_output,
    missing_file_message, processing_message, resolver_window_error, saved_file_message, tool_command, tool_display,
    version_from_output, version_line, entry_actions, DownloadItem, EntryAction, ExecutableSearch, Platform, Probe,
    SearchStep, Tool,
};

fn probe_text(p: &Probe) -> String {
    match p {
        Probe::SearchPath(n) => format!("path:{}", n),
        Probe::Location(l) => format!("at:{}", l),
        Probe::AppDataDir => "dir".to_string(),
        Probe::InAppDataDir(n) => format!("in-dir:{}", n),
    }
}

fn step_text(s: &SearchStep) -> String {
    match s {
        SearchStep::Ask(p) => probe_text(p),
        SearchStep::Found => "found".to_string(),
        SearchStep::Failed(e) => format!("failed:{}", e),
    }
}

#[test]
fn executable_names() {
    assert_eq!(executable_name("ffmpeg", true), "ffmpeg.exe");
    assert_eq!(executable_name("ffmpeg", false), "ffmpeg");
}

#[test]
fn common_locations_of_tools() {
    assert_eq!(
        common_locations("ffprobe"),
        vec!["C:/ffmpeg/bin/ffprobe.exe", "/usr/bin/ffprobe", "/usr/local/bin/ffprobe"]
    );
    assert_eq!(
        common_locations("ffmpeg"),
        vec!["C:/ffmpeg/bin/ffmpeg.exe", "/usr/bin/ffmpeg", "/usr/local/bin/ffmpeg"]
    );
    assert!(common_locations("vvencapp").is_empty());
}

#[test]
fn search_stops_at_first_hit() {
    let (mut search, first) = ExecutableSearch::new("ffmpeg", false);
    assert_eq!(probe_text(&first), "path:ffmpeg");
    assert_eq!(step_text(&search.advance(false)), "at:C:/ffmpeg/bin/ffmpeg.exe");
    assert_eq!(step_text(&search.advance(false)), "at:/usr/bin/ffmpeg");
    assert_eq!(step_text(&search.advance(true)), "found");
}

#[test]
fn search_on_path_hit_ends_at_once() {
    let (mut search, first) = ExecutableSearch::new("ffprobe", true);
    assert_eq!(probe_text(&first), "path:ffprobe.exe");
    assert_eq!(step_text(&search.advance(true)), "found");
}

#[test]
fn search_falls_back_to_app_data_dir() {
    let (mut search, _) = ExecutableSearch::new("ffprobe", true);
    assert_eq!(step_text(&search.advance(false)), "at:C:/ffmpeg/bin/ffprobe.exe");
    assert_eq!(step_text(&search.advance(false)), "at:/usr/bin/ffprobe");
    assert_eq!(step_text(&search.advance(false)), "at:/usr/local/bin/ffprobe");
    assert_eq!(step_text(&search.advance(false)), "dir");
    assert_eq!(step_text(&search.advance(true)), "in-dir:ffprobe.exe");
    assert_eq!(step_text(&search.advance(true)), "found");
}

#[test]
fn search_reports_not_found() {
    let (mut search, _) = ExecutableSearch::new("vvencapp", false);
    assert_eq!(step_text(&search.advance(false)), "dir");
    assert_eq!(step_text(&search.advance(true)), "in-dir:vvencapp");
    assert_eq!(step_text(&search.advance(false)), "failed:vvencapp not found");
}

#[test]
fn search_reports_missing_app_data_dir() {
    let (mut search, _) = ExecutableSearch::new("vvencapp", false);
    assert_eq!(step_text(&search.advance(false)), "dir");
    assert_eq!(step_text(&search.advance(false)), "failed:Unable to get app data directory");
    assert_eq!(app_data_dir_error(), "Unable to get app data directory");
}

#[test]
fn messages() {
    assert_eq!(found_message("ffmpeg", "/usr/bin/ffmpeg"), "Found ffmpeg at /usr/bin/ffmpeg");
    assert_eq!(missing_file_message("/tmp/a.mp4"), "File does not exist: /tmp/a.mp4");
    assert_eq!(
        download_failed_message("https://x/y.zip"),
        "Failed to download from URL: https://x/y.zip"
    );
    assert_eq!(saved_file_message(true), "File downloaded successfully");
    assert_eq!(saved_file_message(false), "File does not exist after download");
    assert_eq!(processing_message("ffmpeg"), "Processing file: ffmpeg");
    assert_eq!(archive_removed_message("ffmpeg.zip"), "ffmpeg.zip zip file removed successfully!");
    assert!(is_directory_entry("bin/"));
    assert!(!is_directory_entry("bin/ffmpeg"));
}

#[test]
fn ffprobe_arguments() {
    assert_eq!(
        ffprobe_args("/videos/in.mkv"),
        vec!["-v", "quiet", "-print_format", "json", "-show_format", "-show_streams", "/videos/in.mkv"]
    );
}

#[test]
fn metadata_parsed_from_json_output() {
    let out = br#"{"format":{"duration":"12.5"},"streams":[]}"#;
    let v = metadata_from_output(true, out, b"").unwrap();
    assert_eq!(v["format"]["duration"], "12.5");
    assert!(v["streams"].as_array().unwrap().is_empty());
}

#[test]
fn metadata_error_is_json_readers_error() {
    let out = b"{not json";
    let expected = serde_json::from_slice::<serde_json::Value>(out).unwrap_err().to_string();
    assert_eq!(metadata_from_output(true, out, b"").unwrap_err(), expected);
    assert!(metadata_from_output(true, b"", b"").is_err());
}

#[test]
fn metadata_reports_failed_run() {
    assert_eq!(
        metadata_from_output(false, b"{}", b"No such file").unwrap_err(),
        "ffprobe failed: No such file"
    );
    assert_eq!(
        metadata_from_output(false, b"{}", &[0x66, 0xff]).unwrap_err(),
        "ffprobe failed: f\u{fffd}"
    );
}

#[test]
fn version_is_first_line() {
    let out = b"ffmpeg version 6.1 Copyright (c) 2000-2023\r\nbuilt with clang\n";
    assert_eq!(
        version_from_output(true, out, b"").unwrap(),
        "ffmpeg version 6.1 Copyright (c) 2000-2023"
    );
    assert_eq!(version_from_output(true, b"", b"").unwrap_err(), "Failed to read version info");
    assert_eq!(
        version_from_output(false, b"ignored", b"bad").unwrap_err(),
        "Failed to get FFmpeg version: bad"
    );
    assert_eq!(version_line("\nsecond"), Ok(String::new()));
    assert_eq!(version_line(""), Err("Failed to read version info".to_string()));
}

#[test]
fn download_urls_parse() {
    for item in ffmpeg_downloads(Platform::Linux) {
        let url = download_url(&item.url).unwrap();
        assert_eq!(url.as_str(), item.url);
    }
    let expected = reqwest::Url::parse("not a url").unwrap_err().to_string();
    assert_eq!(download_url("not a url").unwrap_err(), expected);
}

#[test]
fn content_length_checks() {
    assert_eq!(check_content_length(Some(b"10"), 10), Ok(()));
    assert_eq!(
        check_content_length(Some(b"10"), 9),
        Err("Incomplete download. Expected 10 bytes but got 9 bytes.".to_string())
    );
    assert_eq!(check_content_length(None, 5), Ok(()));
    assert_eq!(check_content_length(Some(b"abc"), 5), Ok(()));
    assert_eq!(check_content_length(Some(b"1\x7f"), 5), Ok(()));
    assert_eq!(check_content_length(Some(b"+5"), 5), Ok(()));
    assert_eq!(check_download_length(Some(3), 4).unwrap_err(), "Incomplete download. Expected 3 bytes but got 4 bytes.");
}

#[test]
fn own_length_header_passes() {
    for n in [0usize, 1, 999, 123456789] {
        let header = n.to_string();
        assert_eq!(check_content_length(Some(header.as_bytes()), n), Ok(()));
    }
}

#[test]
fn downloads_per_platform() {
    let names = |p| -> Vec<(String, String)> {
        ffmpeg_downloads(p).into_iter().map(|d| (d.url, d.file_name)).collect()
    };
    assert_eq!(
        names(Platform::MacOs),
        vec![
            ("https://vvctools.com/ffmpeg/mac/ffmpeg.zip".to_string(), "ffmpeg.zip".to_string()),
            ("https://vvctools.com/ffmpeg/mac/ffprobe.zip".to_string(), "ffprobe.zip".to_string()),
        ]
    );
    assert_eq!(
        names(Platform::Windows),
        vec![("https://vvctools.com/ffmpeg/win/ffmpeg.zip".to_string(), "ffmpeg.zip".to_string())]
    );
    assert_eq!(names(Platform::Linux).len(), 2);
    assert!(names(Platform::Other).is_empty());
}

#[test]
fn download_report_lines() {
    let items = vec![
        DownloadItem { url: "u1".to_string(), file_name: "ffmpeg.zip".to_string() },
        DownloadItem { url: "u2".to_string(), file_name: "ffprobe.zip".to_string() },
    ];
    let outcomes = vec![Ok(()), Err("timed out".to_string())];
    assert_eq!(
        download_report(&items, &outcomes),
        vec![
            "Successfully downloaded and extracted ffmpeg.zip".to_string(),
            "Error while downloading and extracting ffprobe.zip: timed out".to_string(),
        ]
    );
    assert!(download_report(&items, &Vec::new()).is_empty());
}

#[test]
fn resolver_display() {
    assert_eq!(tool_display(Tool::Ffmpeg, Some("/usr/bin/ffmpeg")), "/usr/bin/ffmpeg");
    assert_eq!(tool_display(Tool::Ffmpeg, None), "FFmpeg not found");
    assert_eq!(tool_display(Tool::Ffprobe, None), "FFprobe not found");
    assert_eq!(tool_command(Tool::Ffprobe), "ffprobe");
}

fn action_text(a: &EntryAction) -> String {
    match a {
        EntryAction::Log(m) => format!("log:{}", m),
        EntryAction::LogParentDirectory => "log-parent".to_string(),
        EntryAction::CreateDirectory => "mkdir".to_string(),
        EntryAction::CreateParentDirectory => "mkdir-parent".to_string(),
        EntryAction::ReadEntry => "read".to_string(),
        EntryAction::WriteFile => "write".to_string(),
        EntryAction::SetPermissions(m) => format!("chmod:{:o}", m),
    }
}

#[test]
fn unpacking_steps() {
    let texts = |v: Vec<EntryAction>| -> Vec<String> { v.iter().map(action_text).collect() };
    assert_eq!(
        texts(entry_actions("bin/", true, true, Some(0o755))),
        vec!["log:Processing file: bin/", "log:Creating directory...", "mkdir"]
    );
    assert_eq!(
        texts(entry_actions("bin/ffmpeg", true, true, Some(0o755))),
        vec![
            "log:Processing file: bin/ffmpeg",
            "log-parent",
            "mkdir-parent",
            "read",
            "log:Writing to output file...",
            "write",
            "chmod:755",
        ]
    );
    assert_eq!(
        texts(entry_actions("ffmpeg", false, false, Some(0o755))),
        vec!["log:Processing file: ffmpeg", "read", "log:Writing to output file...", "write"]
    );
    assert_eq!(
        texts(entry_actions("ffprobe", false, true, None)),
        vec!["log:Processing file: ffprobe", "read", "log:Writing to output file...", "write"]
    );
}

#[test]
fn equal_answers_give_equal_results() {
    let run = |answers: &[bool]| -> Vec<String> {
        let (mut search, first) = ExecutableSearch::new("ffmpeg", false);
        let mut seen = vec![probe_text(&first)];
        for &a in answers {
            let step = search.advance(a);
            seen.push(step_text(&step));
            if !matches!(step, SearchStep::Ask(_)) {
                break;
            }
        }
        seen
    };
    let answers = [false, false, false, false, true, false];
    assert_eq!(run(&answers), run(&answers));
    assert_eq!(run(&answers).last().unwrap(), "failed:ffmpeg not found");
    assert_eq!(resolver_window_error(), "Failed to open FFmpeg window");
}

#[test]
fn metadata_value_is_the_parsed_output() {
    let out = br#"{"streams":[{"codec_name":"h264","width":1920}]}"#;
    let expected: serde_json::Value = serde_json::from_slice(out).unwrap();
    let err = br#"{"streams":[]}"#;
    assert_eq!(metadata_from_output(true, out, err).unwrap(), expected);
}
