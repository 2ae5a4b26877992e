use prefsuite::bluetooth::get_nearby_bluetooth;
use prefsuite::outcome::InvocationErrorKind;
use prefsuite::version::SemanticVersion;
use prefsuite::wallpaper::{
    change_wallpaper_mavericks_to_sonoma, change_wallpaper_pre_mavericks,
    change_wallpaper_sonoma_plus, get_current_wallpaper_mavericks_to_sonoma,
    get_current_wallpaper_pre_mavericks, get_current_wallpaper_sonoma_plus, wallpaper_method,
    WallpaperData, WallpaperError, WallpaperMethod,
};

#[test]
fn wallpaper_method_dispatches_by_version() {
    assert_eq!(wallpaper_method(&SemanticVersion::new(10, 8, 5)), WallpaperMethod::PreMavericks);
    assert_eq!(
        wallpaper_method(&SemanticVersion::new(10, 9, 0)),
        WallpaperMethod::MavericksToSonoma
    );
    assert_eq!(
        wallpaper_method(&SemanticVersion::new(13, 6, 0)),
        WallpaperMethod::MavericksToSonoma
    );
    assert_eq!(wallpaper_method(&SemanticVersion::new(14, 0, 0)), WallpaperMethod::SonomaPlus);
}

#[test]
fn oldest_route_reports_nothing() {
    assert_eq!(get_current_wallpaper_pre_mavericks().unwrap(), "");
    assert!(change_wallpaper_pre_mavericks("/tmp/pic.png").is_ok());
}

#[test]
fn database_row_selection() {
    let rows =
        |v: &[&str]| -> Vec<String> { v.iter().map(|s| s.to_string()).collect() };
    assert_eq!(
        get_current_wallpaper_mavericks_to_sonoma(&rows(&["a", "b", "c"])).unwrap(),
        "b"
    );
    assert_eq!(get_current_wallpaper_mavericks_to_sonoma(&rows(&["a", "b"])).unwrap(), "a");
    assert_eq!(
        get_current_wallpaper_mavericks_to_sonoma(&rows(&["3"])).unwrap(),
        "Default Wallpaper"
    );
    assert_eq!(
        get_current_wallpaper_mavericks_to_sonoma(&rows(&["/some/pic.png"])).unwrap(),
        "/some/pic.png"
    );
    assert_eq!(
        get_current_wallpaper_mavericks_to_sonoma(&rows(&[])).unwrap_err(),
        WallpaperError::NoRows
    );
}

#[test]
fn script_output_loses_its_newline() {
    assert_eq!(get_current_wallpaper_sonoma_plus("/a/b.png\n").unwrap(), "/a/b.png");
    assert_eq!(
        get_current_wallpaper_sonoma_plus("/a/b.png").unwrap_err(),
        WallpaperError::MalformedOutput
    );
}

#[test]
fn database_swap_statements_are_ordered() {
    let stmts = change_wallpaper_mavericks_to_sonoma("/new/pic.png");
    assert_eq!(stmts.len(), 7);
    assert_eq!(stmts[0].sql, "DELETE FROM data;");
    assert!(stmts[0].param.is_none());
    assert_eq!(stmts[1].sql, "DELETE FROM preferences;");
    assert_eq!(stmts[2].sql, "INSERT INTO data(rowid,value) VALUES (1,?1)");
    assert_eq!(stmts[2].param.as_deref(), Some("/new/pic.png"));
    for k in 3..7 {
        assert!(stmts[k].sql.starts_with("INSERT INTO preferences"));
        assert!(stmts[k].param.is_none());
    }
    assert_eq!(
        stmts[6].sql,
        "INSERT INTO preferences(rowid,key,data_id,picture_id) VALUES (4,1,1,1)"
    );
}

#[test]
fn script_swap_passes_the_path_as_its_own_token() {
    let cmd = change_wallpaper_sonoma_plus("/new/pic.png");
    assert_eq!(cmd.program, "osascript");
    assert_eq!(cmd.args.len(), 3);
    assert_eq!(cmd.args[0], "-e");
    assert_eq!(
        cmd.args[1],
        "on run argv\ntell application \"System Events\" to tell every desktop to set picture \
to POSIX file (item 1 of argv)\nend run"
    );
    assert_eq!(cmd.args[2], "/new/pic.png");
    // A quote-bearing path stays inside its token; the script is fixed.
    let hostile = "/tmp/x\" as alias) -- injected";
    let cmd = change_wallpaper_sonoma_plus(hostile);
    assert_eq!(cmd.args[2], hostile);
    assert!(!cmd.args[1].contains(hostile));
}

#[test]
fn wallpaper_session_starts_empty() {
    let d = WallpaperData::default();
    assert!(d.new_path.is_none());
    assert!(!d.noselect);
    assert!(!d.dberror);
    assert!(d.changerror.is_none());
    assert!(d.reloadneeded.is_none());
    assert!(d.wpaper.is_none());
}

#[test]
fn bluetooth_names_collapse_to_a_distinct_set() {
    let found = vec![
        "Keyboard".to_string(),
        "Mouse".to_string(),
        "Keyboard".to_string(),
    ];
    let names = get_nearby_bluetooth(Some(found)).unwrap();
    assert_eq!(names, vec!["Keyboard".to_string(), "Mouse".to_string()]);
}

#[test]
fn bluetooth_without_a_device_list_fails() {
    let err = get_nearby_bluetooth(None).unwrap_err();
    assert_eq!(err.kind, InvocationErrorKind::NativeCallFailed);
}
