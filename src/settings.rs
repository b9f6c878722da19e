use vstd::prelude::*;

verus! {

/// The rotation interval, in seconds, when none is given.
pub const DEFAULT_ROTATE_SECS: u64 = 30;

/// The options of the start command as given on the command line; `None`
/// and `false` stand for an option that was not given.
pub struct StartOptions {
    pub mode: Option<String>,
    pub proxy: Option<String>,
    pub tor: bool,
    pub doh: bool,
    pub check: bool,
    pub rotate: Option<u64>,
    pub no_log: bool,
}

/// The fields of the configuration file; each may be absent.
pub struct FileConfig {
    pub mode: Option<String>,
    pub proxy: Option<String>,
    pub tor: Option<bool>,
    pub doh: Option<bool>,
    pub rotate: Option<u64>,
    pub no_log: Option<bool>,
}

/// The settings a session starts with.
pub struct Settings {
    pub mode: String,
    pub proxy: Option<String>,
    pub tor: bool,
    pub doh: bool,
    pub check: bool,
    pub rotate_secs: u64,
    pub logging: bool,
}

pub open spec fn text_view(o: Option<String>) -> Option<Seq<char>> {
    match o {
        Some(s) => Some(s@),
        None => None,
    }
}

/// The first of two optional texts that is present.
pub open spec fn first_text(a: Option<String>, b: Option<String>) -> Option<Seq<char>> {
    if a is Some {
        text_view(a)
    } else {
        text_view(b)
    }
}

/// A flag is on when given on the command line or set in the file.
pub open spec fn flag(cli: bool, file: Option<bool>) -> bool {
    cli || file == Some(true)
}

fn pick_text(a: Option<String>, b: Option<String>) -> (r: Option<String>)
    ensures
        text_view(r) == first_text(a, b),
{
    match a {
        Some(s) => Some(s),
        None => b,
    }
}

fn pick_flag(cli: bool, file: Option<bool>) -> (r: bool)
    ensures
        r == flag(cli, file),
{
    cli || match file {
        Some(b) => b,
        None => false,
    }
}

/// Merges the command line with the configuration file: an option given on
/// the command line wins, the file's value comes next, the default last
/// (the stealth profile, a 30 second interval, logging on).
pub fn resolve_settings(cli: StartOptions, file: Option<FileConfig>) -> (r: Settings)
    ensures
        ({
            let (fm, fp, ft, fd, fr, fn_) = match file {
                Some(f) => (f.mode, f.proxy, f.tor, f.doh, f.rotate, f.no_log),
                None => (None, None, None, None, None, None),
            };
            &&& r.mode@ == match first_text(cli.mode, fm) {
                Some(m) => m,
                None => "stealth"@,
            }
            &&& text_view(r.proxy) == first_text(cli.proxy, fp)
            &&& r.tor == flag(cli.tor, ft)
            &&& r.doh == flag(cli.doh, fd)
            &&& r.check == cli.check
            &&& r.rotate_secs == match cli.rotate {
                Some(n) => n,
                None => match fr {
                    Some(n) => n,
                    None => DEFAULT_ROTATE_SECS,
                },
            }
            &&& r.logging == !flag(cli.no_log, fn_)
        }),
{
    let (fm, fp, ft, fd, fr, fn_) = match file {
        Some(f) => (f.mode, f.proxy, f.tor, f.doh, f.rotate, f.no_log),
        None => (None, None, None, None, None, None),
    };
    let mode = match pick_text(cli.mode, fm) {
        Some(m) => m,
        None => "stealth".to_string(),
    };
    let rotate_secs = match cli.rotate {
        Some(n) => n,
        None => match fr {
            Some(n) => n,
            None => DEFAULT_ROTATE_SECS,
        },
    };
    Settings {
        mode,
        proxy: pick_text(cli.proxy, fp),
        tor: pick_flag(cli.tor, ft),
        doh: pick_flag(cli.doh, fd),
        check: cli.check,
        rotate_secs,
        logging: !pick_flag(cli.no_log, fn_),
    }
}

} // verus!
