//! Session management for anonymised outbound traffic: a rotating pool of
//! proxy endpoints, a supervised relay process, the session controller's
//! decisions and the identity probe's interpretation of responses.

mod rotation;
mod shared;
mod text;
mod probe;
mod supervisor;
mod session;
mod profile;
mod settings;
mod status;

pub use rotation::{
    index_after, lemma_rotation_count, lemma_rotation_run, lemma_rotation_timestamp_advances,
    lemma_should_rotate_boundary, next_index, rotation_due, ProxyRotator,
};
pub use shared::{RotationSnapshot, SharedRotator};
pub use text::{
    chars_of, contains, contains_spec, entries, is_space, is_white_space, lines_of, occurs_at,
    parse_proxy_list, proxy_list, trim, trim_end, trim_start, trimmed,
};
pub use probe::{
    first_answer, ip_services, response_view, tor_confirmed, tor_marker, IpProbe, TOR_CHECK_URL,
};
pub use supervisor::{lemma_stop_idempotent, TorManager};
pub use session::{
    launched, rotation_step, source_pool, ProxySource, RelayLaunch, RotationStep, Session,
    SessionPhase, StartupError, StartupFailure,
};
pub use profile::{
    cipher_suites_of, extensions_of, headers_of, kind_of, lower_of, mode_name, pairs_view,
    strings_view, user_agents_of, ProfileKind, SecurityProfile, TlsProfile,
};
pub use settings::{
    first_text, flag, resolve_settings, text_view, FileConfig, Settings, StartOptions,
    DEFAULT_ROTATE_SECS,
};
pub use status::{
    decimal, decimal_string, digit_char, ip_status, proxy_status, tor_line, tor_status,
};
