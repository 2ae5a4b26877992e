//! Wallpaper state: the per-release method dispatch, the row-selection
//! rule for the desktop-picture database, and the statements and
//! commands the state-changing paths hand to the calling layer.

use vstd::prelude::*;

use crate::command::CommandLine;
use crate::text::str_eq_str;
use crate::version::{mavericks, sonoma, SemanticVersion, spec_mavericks, spec_sonoma};

verus! {

/// Session state for the wallpaper screen.
#[derive(Debug)]
pub struct WallpaperData {
    /// The picked replacement file, if any.
    pub new_path: Option<String>,
    /// Whether a change was requested with no file selected.
    pub noselect: bool,
    /// Whether reading the current wallpaper failed.
    pub dberror: bool,
    /// The last change failure, if any.
    pub changerror: Option<String>,
    /// Whether the cached wallpaper is out of date.
    pub reloadneeded: Option<bool>,
    /// The cached current wallpaper, or the failure to read it.
    pub wpaper: Option<Result<String, String>>,
}

impl Default for WallpaperData {
    /// An empty session: nothing read, nothing picked, no errors.
    fn default() -> (d: Self)
        ensures
            d.new_path is None,
            !d.noselect,
            !d.dberror,
            d.changerror is None,
            d.reloadneeded is None,
            d.wpaper is None,
    {
        WallpaperData {
            new_path: None,
            noselect: false,
            dberror: false,
            changerror: None,
            reloadneeded: None,
            wpaper: None,
        }
    }
}

/// Why a wallpaper value could not be determined from what a probe
/// handed back.
#[derive(Clone, Copy, Debug, PartialEq, Eq, Structural)]
pub enum WallpaperError {
    /// The database query returned no rows at all.
    NoRows,
    /// The script's output was not a newline-terminated path.
    MalformedOutput,
}

/// Which wallpaper route applies on a version.
#[derive(Clone, Copy, Debug, PartialEq, Eq, Structural)]
pub enum WallpaperMethod {
    PreMavericks,
    MavericksToSonoma,
    SonomaPlus,
}

pub open spec fn spec_wallpaper_method(version: SemanticVersion) -> WallpaperMethod {
    if version.spec_ge(spec_sonoma()) {
        WallpaperMethod::SonomaPlus
    } else if version.spec_ge(spec_mavericks()) {
        WallpaperMethod::MavericksToSonoma
    } else {
        WallpaperMethod::PreMavericks
    }
}

/// The per-release dispatch both the read and the change paths use.
pub fn wallpaper_method(version: &SemanticVersion) -> (m: WallpaperMethod)
    ensures
        m == spec_wallpaper_method(*version),
{
    if version.is_at_least(&sonoma()) {
        WallpaperMethod::SonomaPlus
    } else if version.is_at_least(&mavericks()) {
        WallpaperMethod::MavericksToSonoma
    } else {
        WallpaperMethod::PreMavericks
    }
}

/// The oldest route knows no way to read the wallpaper: it reports an
/// empty name.
pub fn get_current_wallpaper_pre_mavericks() -> (r: Result<String, WallpaperError>)
    ensures
        match r {
            Ok(s) => s@ == Seq::<char>::empty(),
            Err(_) => false,
        },
{
    Ok(String::new())
}

/// The oldest route knows no way to change the wallpaper either: it
/// reports success without an action.
#[allow(unused_variables)]
pub fn change_wallpaper_pre_mavericks(new_path: &str) -> (r: Result<(), WallpaperError>)
    ensures
        r is Ok,
{
    Ok(())
}

/// Pick the wallpaper value out of the database rows, newest first:
/// with three rows the middle one, with two the first, with one the
/// fixed name when the row reads `3`, else the row itself; no rows at
/// all is a failure.
pub fn get_current_wallpaper_mavericks_to_sonoma(values: &Vec<String>) -> (r: Result<
    String,
    WallpaperError,
>)
    ensures
        ({
            let vs = values@.map_values(|s: String| s@);
            match r {
                Ok(s) => {
                    if vs.len() == 3 {
                        s@ == vs[1]
                    } else if vs.len() == 2 {
                        s@ == vs[0]
                    } else if vs.len() >= 1 && vs[0] == "3"@ {
                        s@ == "Default Wallpaper"@
                    } else {
                        vs.len() >= 1 && s@ == vs[0]
                    }
                },
                Err(e) => vs.len() == 0 && e == WallpaperError::NoRows,
            }
        }),
{
    proof {
        assert(values@.map_values(|s: String| s@).len() == values@.len());
        assert(forall|k: int|
            0 <= k < values@.len() ==> values@.map_values(|s: String| s@)[k] == values@[k]@);
    }
    if values.len() == 3 {
        Ok(values[1].clone())
    } else if values.len() == 2 {
        Ok(values[0].clone())
    } else if values.len() == 0 {
        Err(WallpaperError::NoRows)
    } else if str_eq_str(values[0].as_str(), "3") {
        Ok(String::from_str("Default Wallpaper"))
    } else {
        Ok(values[0].clone())
    }
}

/// Strip the script's trailing newline off the reported wallpaper path.
pub fn get_current_wallpaper_sonoma_plus(output: &str) -> (r: Result<String, WallpaperError>)
    ensures
        match r {
            Ok(s) => output@.len() >= 1 && output@.last() == '\n' && s@ == output@.take(
                output@.len() - 1,
            ),
            Err(e) => (output@.len() == 0 || output@.last() != '\n') && e
                == WallpaperError::MalformedOutput,
        },
{
    match crate::text::strip_suffix_str(output, "\n") {
        Some(front) => {
            proof {
                reveal_strlit("\n");
                assert(output@.skip(output@.len() - 1)[0] == output@.last());
            }
            Ok(front)
        },
        None => {
            proof {
                reveal_strlit("\n");
                let t = output@;
                if t.len() >= 1 && t.last() == '\n' {
                    assert(t.skip(t.len() - 1) =~= "\n"@);
                }
            }
            Err(WallpaperError::MalformedOutput)
        },
    }
}

/// One statement for the desktop-picture database: the text and, for
/// the insertion that carries the new path, its single parameter.
#[derive(Debug)]
pub struct DbStatement {
    pub sql: String,
    pub param: Option<String>,
}

/// The statement sequence that swaps the wallpaper in the database:
/// clear both tables, insert the new path, and restore the four
/// preference rows. The calling layer executes them in this order.
pub fn change_wallpaper_mavericks_to_sonoma(new_path: &str) -> (stmts: Vec<DbStatement>)
    ensures
        stmts@.len() == 7,
        stmts@[0].sql@ == "DELETE FROM data;"@ && stmts@[0].param is None,
        stmts@[1].sql@ == "DELETE FROM preferences;"@ && stmts@[1].param is None,
        stmts@[2].sql@ == "INSERT INTO data(rowid,value) VALUES (1,?1)"@ && (match stmts@[2].param {
            Some(p) => p@ == new_path@,
            None => false,
        }),
        stmts@[3].sql@ == "INSERT INTO preferences(rowid,key,data_id,picture_id) VALUES (1,1,1,3)"@
            && stmts@[3].param is None,
        stmts@[4].sql@ == "INSERT INTO preferences(rowid,key,data_id,picture_id) VALUES (2,1,1,4)"@
            && stmts@[4].param is None,
        stmts@[5].sql@ == "INSERT INTO preferences(rowid,key,data_id,picture_id) VALUES (3,1,1,2)"@
            && stmts@[5].param is None,
        stmts@[6].sql@ == "INSERT INTO preferences(rowid,key,data_id,picture_id) VALUES (4,1,1,1)"@
            && stmts@[6].param is None,
{
    let mut stmts: Vec<DbStatement> = Vec::new();
    stmts.push(DbStatement { sql: String::from_str("DELETE FROM data;"), param: None });
    stmts.push(DbStatement { sql: String::from_str("DELETE FROM preferences;"), param: None });
    stmts.push(
        DbStatement {
            sql: String::from_str("INSERT INTO data(rowid,value) VALUES (1,?1)"),
            param: Some(String::from_str(new_path)),
        },
    );
    stmts.push(
        DbStatement {
            sql: String::from_str(
                "INSERT INTO preferences(rowid,key,data_id,picture_id) VALUES (1,1,1,3)",
            ),
            param: None,
        },
    );
    stmts.push(
        DbStatement {
            sql: String::from_str(
                "INSERT INTO preferences(rowid,key,data_id,picture_id) VALUES (2,1,1,4)",
            ),
            param: None,
        },
    );
    stmts.push(
        DbStatement {
            sql: String::from_str(
                "INSERT INTO preferences(rowid,key,data_id,picture_id) VALUES (3,1,1,2)",
            ),
            param: None,
        },
    );
    stmts.push(
        DbStatement {
            sql: String::from_str(
                "INSERT INTO preferences(rowid,key,data_id,picture_id) VALUES (4,1,1,1)",
            ),
            param: None,
        },
    );
    stmts
}

/// The script command that swaps the wallpaper on the newest route. The
/// script text is fixed and reads the path from its own argument list,
/// so the path travels as a discrete token and a quote in it cannot
/// escape into the script. State-changing: the caller spawns it and
/// must not retry it silently.
pub fn change_wallpaper_sonoma_plus(new_path: &str) -> (cmd: CommandLine)
    ensures
        cmd@.program == "osascript"@,
        cmd@.args.len() == 3,
        cmd@.args[0] == "-e"@,
        cmd@.args[1]
            == "on run argv\ntell application \"System Events\" to tell every desktop to set picture to POSIX file (item 1 of argv)\nend run"@,
        cmd@.args[2] == new_path@,
{
    let mut args: Vec<String> = Vec::new();
    args.push(String::from_str("-e"));
    args.push(
        String::from_str(
            "on run argv\ntell application \"System Events\" to tell every desktop to set picture to POSIX file (item 1 of argv)\nend run",
        ),
    );
    args.push(String::from_str(new_path));
    let cmd = CommandLine { program: String::from_str("osascript"), args };
    proof {
        assert(cmd@.args =~= seq![
            "-e"@,
            "on run argv\ntell application \"System Events\" to tell every desktop to set picture to POSIX file (item 1 of argv)\nend run"@,
            new_path@,
        ]);
    }
    cmd
}

} // verus!
