use wallpaper_randomizer::{
    candidates, change_wallpaper, check_command, gsettings_set, is_image_ext, select_candidate,
    select_wallpaper, set_picture_uri, settings_plan, Applier, CommandOutput, Entry,
    WallpaperError,
};

fn file(path: &str) -> Entry {
    Entry { path: path.to_string(), path_is_text: true, is_file: true }
}

fn paths(entries: &[Entry]) -> Vec<String> {
    entries.iter().map(|e| e.path.clone()).collect()
}

fn failed(stderr: &[u8]) -> Result<CommandOutput, std::io::Error> {
    Ok(CommandOutput { success: false, stderr: stderr.to_vec() })
}

fn succeeded() -> Result<CommandOutput, std::io::Error> {
    Ok(CommandOutput { success: true, stderr: Vec::new() })
}

#[test]
fn image_extensions_in_any_case() {
    for ext in ["jpg", "jpeg", "png", "JPG", "JPEG", "PNG", "Jpg", "jPeG", "pNg"] {
        assert!(is_image_ext(ext), "{ext}");
    }
}

#[test]
fn other_extensions_are_not_images() {
    for ext in ["", "txt", "gif", "jp", "jpgg", "pngx", "bmp", "j pg", "JPGS"] {
        assert!(!is_image_ext(ext), "{ext}");
    }
}

#[test]
fn candidates_keep_images_in_listing_order() {
    let entries = vec![file("/w/a.png"), file("/w/b.txt"), file("/w/c.JPG")];
    let cands = candidates(&entries);
    assert_eq!(paths(&cands), vec!["/w/a.png".to_string(), "/w/c.JPG".to_string()]);
}

#[test]
fn candidates_leave_out_directories_and_names_without_extension() {
    let mut dir = file("/w/folder.png");
    dir.is_file = false;
    let entries = vec![
        dir,
        file("/w/.png"),
        file("/w/png"),
        file("/w/archive.png.gz"),
        file("/w/photo.jpeg"),
    ];
    let cands = candidates(&entries);
    assert_eq!(paths(&cands), vec!["/w/photo.jpeg".to_string()]);
}

#[test]
fn select_candidate_takes_the_drawn_index() {
    let cands = vec![file("/w/a.png"), file("/w/b.jpg"), file("/w/c.jpeg")];
    for (draw, expected) in [(0, "/w/a.png"), (1, "/w/b.jpg"), (2, "/w/c.jpeg")] {
        assert_eq!(select_candidate(&cands, draw).unwrap(), expected);
    }
}

#[test]
fn select_candidate_without_candidates_is_image_not_found() {
    let r = select_candidate(&Vec::new(), 0);
    assert!(matches!(r, Err(WallpaperError::ImageNotFound)));
}

#[test]
fn select_candidate_with_non_text_path_is_invalid_path() {
    let mut odd = file("/w/\u{FFFD}.png");
    odd.path_is_text = false;
    let cands = vec![file("/w/a.png"), odd];
    assert!(matches!(select_candidate(&cands, 1), Err(WallpaperError::InvalidPath)));
    assert_eq!(select_candidate(&cands, 0).unwrap(), "/w/a.png");
}

#[test]
fn missing_directory_is_directory_not_found() {
    assert!(matches!(select_wallpaper(None), Err(WallpaperError::DirectoryNotFound)));
}

#[test]
fn directory_without_images_is_image_not_found() {
    let entries = vec![file("/w/notes.txt"), file("/w/song.mp3"), file("/w/README")];
    assert!(matches!(select_wallpaper(Some(entries)), Err(WallpaperError::ImageNotFound)));
    assert!(matches!(select_wallpaper(Some(Vec::new())), Err(WallpaperError::ImageNotFound)));
}

#[test]
fn single_candidate_is_always_selected() {
    for _ in 0..50 {
        let entries = vec![file("/w/notes.txt"), file("/w/only.PNG"), file("/w/x.gif")];
        assert_eq!(select_wallpaper(Some(entries)).unwrap(), "/w/only.PNG");
    }
}

#[test]
fn selection_is_one_of_the_candidates() {
    for _ in 0..50 {
        let entries = vec![file("/w/a.png"), file("/w/b.txt"), file("/w/c.JPG")];
        let chosen = select_wallpaper(Some(entries)).unwrap();
        assert!(chosen == "/w/a.png" || chosen == "/w/c.JPG", "{chosen}");
    }
}

#[test]
fn picture_uri_prefixes_file_scheme() {
    let s = set_picture_uri("org.gnome.desktop.background", "picture-uri", "/abs/a.png");
    assert_eq!(s.schema, "org.gnome.desktop.background");
    assert_eq!(s.key, "picture-uri");
    assert_eq!(s.value, "file:///abs/a.png");
}

#[test]
fn gsettings_set_keeps_the_option() {
    let s = gsettings_set("org.gnome.desktop.screensaver", "picture-options", "zoom");
    assert_eq!(s.schema, "org.gnome.desktop.screensaver");
    assert_eq!(s.key, "picture-options");
    assert_eq!(s.value, "zoom");
}

#[test]
fn settings_plan_order_and_values() {
    let plan = settings_plan("/abs/c.JPG", "scaled");
    let got: Vec<(String, String, String)> =
        plan.into_iter().map(|s| (s.schema, s.key, s.value)).collect();
    let want = [
        ("org.gnome.desktop.background", "picture-uri", "file:///abs/c.JPG"),
        ("org.gnome.desktop.background", "picture-uri-dark", "file:///abs/c.JPG"),
        ("org.gnome.desktop.screensaver", "picture-uri", "file:///abs/c.JPG"),
        ("org.gnome.desktop.background", "picture-options", "scaled"),
        ("org.gnome.desktop.screensaver", "picture-options", "scaled"),
    ];
    let want: Vec<(String, String, String)> = want
        .iter()
        .map(|(a, b, c)| (a.to_string(), b.to_string(), c.to_string()))
        .collect();
    assert_eq!(got, want);
}

#[test]
fn check_command_judges_each_outcome() {
    assert!(check_command(succeeded()).is_ok());
    match check_command(failed(b"no such key")) {
        Err(WallpaperError::CommandFailed(stderr)) => assert_eq!(stderr, b"no such key".to_vec()),
        other => panic!("unexpected {other:?}"),
    }
    let spawn = std::io::Error::new(std::io::ErrorKind::NotFound, "gsettings missing");
    assert!(matches!(check_command(Err(spawn)), Err(WallpaperError::CommandIo(_))));
}

#[test]
fn applier_runs_every_setting_in_order() {
    let mut a = Applier::new("/abs/a.png".to_string(), "zoom");
    let mut seen = Vec::new();
    while let Some(s) = a.next_setting() {
        seen.push(format!("{} {} {}", s.schema, s.key, s.value));
        a.record(succeeded());
    }
    assert_eq!(seen.len(), 5);
    assert_eq!(seen[0], "org.gnome.desktop.background picture-uri file:///abs/a.png");
    assert_eq!(seen[4], "org.gnome.desktop.screensaver picture-options zoom");
    assert_eq!(a.finish().unwrap(), "/abs/a.png");
}

#[test]
fn first_failure_stops_the_session() {
    let mut a = Applier::new("/abs/a.png".to_string(), "zoom");
    let mut runs = 0;
    while let Some(_) = a.next_setting() {
        runs += 1;
        a.record(failed(b"dconf unavailable"));
    }
    assert_eq!(runs, 1);
    assert_eq!(a.applied, 0);
    match a.finish() {
        Err(WallpaperError::CommandFailed(stderr)) => {
            assert_eq!(stderr, b"dconf unavailable".to_vec())
        }
        other => panic!("unexpected {other:?}"),
    }
}

#[test]
fn later_failure_keeps_earlier_settings_applied() {
    let mut a = Applier::new("/abs/a.png".to_string(), "zoom");
    let mut runs = 0;
    while let Some(_) = a.next_setting() {
        runs += 1;
        if runs == 3 {
            a.record(Err(std::io::Error::new(std::io::ErrorKind::Other, "spawn")));
        } else {
            a.record(succeeded());
        }
    }
    assert_eq!(runs, 3);
    assert_eq!(a.applied, 2);
    assert!(matches!(a.finish(), Err(WallpaperError::CommandIo(_))));
}

#[test]
fn change_wallpaper_end_to_end() {
    for _ in 0..20 {
        let entries = vec![file("/abs/a.png"), file("/abs/b.txt"), file("/abs/c.JPG")];
        let a = change_wallpaper(Some(entries), "zoom").unwrap();
        assert!(a.file_name == "/abs/a.png" || a.file_name == "/abs/c.JPG");
        assert_eq!(a.applied, 0);
        assert_eq!(a.plan.len(), 5);
        let uri = format!("file://{}", a.file_name);
        for s in &a.plan[0..3] {
            assert_eq!(s.value, uri);
        }
        assert_eq!(a.plan[3].value, "zoom");
    }
}

#[test]
fn change_wallpaper_reports_selection_errors() {
    assert!(matches!(change_wallpaper(None, "zoom"), Err(WallpaperError::DirectoryNotFound)));
    let only_text = Some(vec![file("/abs/b.txt")]);
    assert!(matches!(change_wallpaper(only_text, "zoom"), Err(WallpaperError::ImageNotFound)));
}

#[test]
fn error_messages() {
    assert_eq!(WallpaperError::DirectoryNotFound.message(), "directory not found");
    assert_eq!(WallpaperError::ImageNotFound.message(), "unable to find a JPEG or PNG");
    assert_eq!(WallpaperError::InvalidPath.message(), "does not appear to be valid path");
    assert_eq!(
        WallpaperError::CommandFailed(b"bad key\n".to_vec()).message(),
        "error trying to set GNOME setting: bad key\n"
    );
    assert_eq!(
        WallpaperError::CommandFailed(vec![b'x', 0xff]).message(),
        "error trying to set GNOME setting: x\u{FFFD}"
    );
    let io = std::io::Error::new(std::io::ErrorKind::NotFound, "gsettings missing");
    assert_eq!(
        WallpaperError::CommandIo(io).message(),
        "error trying to set GNOME setting: gsettings missing"
    );
}
