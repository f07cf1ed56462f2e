//! SFTP: failure categories, the validation of a profile into a session plan, the
//! classification of connection failures, and the remote browser listing.
use vstd::prelude::*;

use crate::app::paths;
use crate::app::paths::join_logical_path;
use crate::domain::{Authentication, BrowserEntry, ConnectionProfile, ConnectionProfileSource, EntryKind};
use crate::localfs;
use crate::localfs::{listing_status_text, sort_entries};
use crate::order;
use crate::text;
use crate::text::{any_control, any_whitespace, chars_of, contains_char, contains_text, lower_chars};
use crate::transfer::ObservedKind;

verus! {

broadcast use vstd::string::group_string_axioms;

/// `std::path::PathBuf`, carried through the connection options.
#[verifier::external_type_specification]
#[verifier::external_body]
pub struct ExPathBuf(std::path::PathBuf);

/// `openssh::Error`, the error of a failed SSH connection.
#[verifier::external_type_specification]
#[verifier::external_body]
pub struct ExOpensshError(openssh::Error);

/// `openssh::SessionBuilder`, the settings an SSH session is opened with.
#[verifier::external_type_specification]
#[verifier::external_body]
pub struct ExSessionBuilder(openssh::SessionBuilder);

/// A directory read over SFTP.
#[derive(Debug, PartialEq, Eq)]
pub struct RemoteDirectory {
    pub path: String,
    pub entries: Vec<BrowserEntry>,
    pub skipped_entries: usize,
}

impl RemoteDirectory {
    /// The status line for this listing.
    pub fn status(&self) -> (r: String)
        ensures
            r@ == localfs::listing_status("Remote"@, self.entries@.len(), self.skipped_entries as nat),
    {
        listing_status_text("Remote", self.entries.len(), self.skipped_entries)
    }
}

/// Where the SSH connection takes its configuration and how long it waits.
#[derive(Debug)]
pub struct ConnectionOptions {
    pub config_file: Option<std::path::PathBuf>,
    pub known_hosts_file: Option<std::path::PathBuf>,
    pub control_directory: Option<std::path::PathBuf>,
    pub connect_timeout: std::time::Duration,
}

/// The seconds after which an SSH connection attempt gives up unless told otherwise.
pub const DEFAULT_CONNECT_TIMEOUT_SECS: u64 = 10;

/// The duration that `Duration::from_secs` makes of `secs` seconds.
pub uninterp spec fn duration_of_secs(secs: u64) -> std::time::Duration;

/// `std::time::Duration::from_secs`: the contract claims only that the result is the
/// duration named for its argument, a function of the seconds alone.
#[verifier::external_body]
fn duration_from_secs(secs: u64) -> (d: std::time::Duration)
    ensures
        d == duration_of_secs(secs),
{
    std::time::Duration::from_secs(secs)
}

impl Default for ConnectionOptions {
    fn default() -> (r: Self)
        ensures
            r.config_file is None,
            r.known_hosts_file is None,
            r.control_directory is None,
            r.connect_timeout == duration_of_secs(DEFAULT_CONNECT_TIMEOUT_SECS),
    {
        ConnectionOptions {
            config_file: None,
            known_hosts_file: None,
            control_directory: None,
            connect_timeout: duration_from_secs(DEFAULT_CONNECT_TIMEOUT_SECS),
        }
    }
}

/// Why an SFTP operation failed.
#[derive(Clone, Copy, Debug, PartialEq, Eq, Structural)]
pub enum SftpFailureKind {
    InvalidProfile,
    Authentication,
    HostVerification,
    Connection,
    RemoteFilesystem,
    InvalidRemotePath,
}

/// A failed SFTP operation, without raw diagnostics.
#[derive(Clone, Copy, Debug, PartialEq, Eq, Structural)]
pub struct SftpFailure {
    pub kind: SftpFailureKind,
    pub retryable: bool,
}

pub open spec fn spec_failure_status(kind: SftpFailureKind) -> Seq<char> {
    match kind {
        SftpFailureKind::InvalidProfile => "Connection profile is not usable for SFTP."@,
        SftpFailureKind::Authentication => "SSH authentication failed; check the selected agent or key reference."@,
        SftpFailureKind::HostVerification => "SSH host verification failed; update known_hosts outside xfercat."@,
        SftpFailureKind::Connection => "SSH connection could not be established."@,
        SftpFailureKind::RemoteFilesystem => "Remote directory could not be read."@,
        SftpFailureKind::InvalidRemotePath => "Remote path could not be represented safely."@,
    }
}

impl SftpFailure {
    /// The status line for this failure; it never quotes a diagnostic.
    pub fn status(self) -> (r: &'static str)
        ensures
            r@ == spec_failure_status(self.kind),
    {
        match self.kind {
            SftpFailureKind::InvalidProfile => "Connection profile is not usable for SFTP.",
            SftpFailureKind::Authentication => "SSH authentication failed; check the selected agent or key reference.",
            SftpFailureKind::HostVerification => "SSH host verification failed; update known_hosts outside xfercat.",
            SftpFailureKind::Connection => "SSH connection could not be established.",
            SftpFailureKind::RemoteFilesystem => "Remote directory could not be read.",
            SftpFailureKind::InvalidRemotePath => "Remote path could not be represented safely.",
        }
    }
}

/// A failure of the given kind.
pub fn failure(kind: SftpFailureKind, retryable: bool) -> (r: SftpFailure)
    ensures
        r == (SftpFailure { kind, retryable }),
{
    SftpFailure { kind, retryable }
}

// ---------------------------------------------------------------------------
// Safe values
// ---------------------------------------------------------------------------
/// A host or user that cannot be read as an option: not empty, not starting with `-`,
/// without white space or control characters.
pub open spec fn spec_is_safe_word(value: Seq<char>) -> bool {
    &&& value.len() > 0
    &&& value[0] != '-'
    &&& !text::has_whitespace(value)
    &&& !text::has_control(value)
}

pub fn is_safe_destination(value: &str) -> (r: bool)
    ensures
        r == spec_is_safe_word(value@),
{
    let v = chars_of(value);
    v.len() > 0 && v[0] != '-' && !any_whitespace(&v) && !any_control(&v)
}

pub fn is_safe_user(value: &str) -> (r: bool)
    ensures
        r == spec_is_safe_word(value@),
{
    let v = chars_of(value);
    v.len() > 0 && v[0] != '-' && !any_whitespace(&v) && !any_control(&v)
}

/// A key reference: not empty and without control characters.
pub open spec fn spec_is_safe_key_reference(value: Seq<char>) -> bool {
    value.len() > 0 && !text::has_control(value)
}

pub fn is_safe_key_reference(value: &str) -> (r: bool)
    ensures
        r == spec_is_safe_key_reference(value@),
{
    let v = chars_of(value);
    v.len() > 0 && !any_control(&v)
}

/// An absolute remote path without control characters.
pub open spec fn spec_is_safe_remote_path(path: Seq<char>) -> bool {
    path.len() > 0 && path[0] == '/' && !text::has_control(path)
}

pub fn is_safe_remote_path(path: &str) -> (r: bool)
    ensures
        r == spec_is_safe_remote_path(path@),
{
    let v = chars_of(path);
    v.len() > 0 && v[0] == '/' && !any_control(&v)
}

/// A directory entry name that names one entry of that directory: not empty, not `.` or
/// `..`, without `/` or control characters.
pub open spec fn spec_is_safe_entry_name(name: Seq<char>) -> bool {
    &&& name.len() > 0
    &&& name != "."@
    &&& name != ".."@
    &&& !text::has_char(name, '/')
    &&& !text::has_control(name)
}

/// `.` or `..`.
pub open spec fn is_dot_name(name: Seq<char>) -> bool {
    name == "."@ || name == ".."@
}

fn dot_name(v: &Vec<char>) -> (r: bool)
    ensures
        r == is_dot_name(v@),
{
    proof {
        reveal_strlit(".");
        reveal_strlit("..");
    }
    let dot = v.len() == 1 && v[0] == '.';
    let dot_dot = v.len() == 2 && v[0] == '.' && v[1] == '.';
    proof {
        if dot {
            assert(v@ =~= "."@);
        }
        if dot_dot {
            assert(v@ =~= ".."@);
        }
    }
    dot || dot_dot
}

pub fn is_safe_entry_name(name: &str) -> (r: bool)
    ensures
        r == spec_is_safe_entry_name(name@),
{
    let v = chars_of(name);
    v.len() > 0 && !dot_name(&v) && !contains_char(&v, '/') && !any_control(&v)
}

/// `directory/name` for a listed entry.
pub fn join_remote_path(directory: &str, name: &str) -> (r: String)
    ensures
        r@ == paths::spec_join_logical_path(directory@, name@),
{
    join_logical_path(directory, name)
}

// ---------------------------------------------------------------------------
// Session plans
// ---------------------------------------------------------------------------
/// What a profile decides of an SSH session: the destination, and the user and key file
/// the session sets, if any. Host keys are always checked strictly, and the master
/// connection is closed after the initial connection.
#[derive(Debug)]
pub struct SessionPlan {
    pub destination: String,
    pub user: Option<String>,
    pub keyfile: Option<String>,
    pub connect_timeout: std::time::Duration,
}

/// The user and key file a profile's session sets, or why the profile is refused: the
/// host must be safe; an imported profile leaves both to the OpenSSH configuration; a
/// manual profile sets a safe user and, for key authentication, a safe key reference;
/// every other combination is refused.
pub open spec fn spec_session_settings(profile: ConnectionProfile) -> Result<(Option<Seq<char>>, Option<Seq<char>>), SftpFailure> {
    let invalid = SftpFailure { kind: SftpFailureKind::InvalidProfile, retryable: false };
    if !spec_is_safe_word(profile.host@) {
        Err(invalid)
    } else {
        match (profile.source, profile.authentication) {
            (ConnectionProfileSource::OpenSshConfig, Authentication::OpenSshConfig) => Ok((None, None)),
            (ConnectionProfileSource::Manual, Authentication::SshAgent) => if !spec_is_safe_word(profile.user@) {
                Err(invalid)
            } else {
                Ok((Some(profile.user@), None))
            },
            (ConnectionProfileSource::Manual, Authentication::KeyReference(reference)) => if !spec_is_safe_word(profile.user@)
                || !spec_is_safe_key_reference(reference@) {
                Err(invalid)
            } else {
                Ok((Some(profile.user@), Some(reference@)))
            },
            _ => Err(invalid),
        }
    }
}

/// Validates `profile` into the plan of its SSH session.
pub fn session_plan(profile: &ConnectionProfile, options: &ConnectionOptions) -> (r: Result<SessionPlan, SftpFailure>)
    ensures
        match r {
            Ok(plan) => spec_session_settings(*profile) == Ok::<(Option<Seq<char>>, Option<Seq<char>>), SftpFailure>(
                (text::opt_view(plan.user), text::opt_view(plan.keyfile)),
            ) && plan.destination@ == profile.host@ && plan.connect_timeout == options.connect_timeout,
            Err(f) => spec_session_settings(*profile) == Err::<(Option<Seq<char>>, Option<Seq<char>>), SftpFailure>(f),
        },
{
    let invalid = failure(SftpFailureKind::InvalidProfile, false);
    if !is_safe_destination(profile.host.as_str()) {
        return Err(invalid);
    }
    let (user, keyfile) = match (&profile.source, &profile.authentication) {
        (ConnectionProfileSource::OpenSshConfig, Authentication::OpenSshConfig) => (None, None),
        (ConnectionProfileSource::Manual, Authentication::SshAgent) => {
            if !is_safe_user(profile.user.as_str()) {
                return Err(invalid);
            }
            (Some(profile.user.clone()), None)
        },
        (ConnectionProfileSource::Manual, Authentication::KeyReference(reference)) => {
            if !is_safe_user(profile.user.as_str()) || !is_safe_key_reference(reference.as_str()) {
                return Err(invalid);
            }
            (Some(profile.user.clone()), Some(reference.clone()))
        },
        _ => return Err(invalid),
    };
    Ok(
        SessionPlan {
            destination: profile.host.clone(),
            user,
            keyfile,
            connect_timeout: options.connect_timeout,
        },
    )
}

/// The settings this library has applied to a session builder on top of openssh's
/// defaults: a field that is `false` or `None` was left as openssh sets it.
pub struct SessionSettings {
    pub strict_host_keys: bool,
    pub close_master_after_session: bool,
    pub connect_timeout: Option<std::time::Duration>,
    pub config_file: Option<std::path::PathBuf>,
    pub known_hosts_file: Option<std::path::PathBuf>,
    pub control_directory: Option<std::path::PathBuf>,
    pub user: Option<Seq<char>>,
    pub keyfile: Option<Seq<char>>,
}

/// No setting applied yet.
pub open spec fn unset_settings() -> SessionSettings {
    SessionSettings {
        strict_host_keys: false,
        close_master_after_session: false,
        connect_timeout: None,
        config_file: None,
        known_hosts_file: None,
        control_directory: None,
        user: None,
        keyfile: None,
    }
}

/// An `openssh::SessionBuilder` together with the settings that were applied to it.
pub struct SessionConfig {
    builder: openssh::SessionBuilder,
    applied: Ghost<SessionSettings>,
}

impl SessionConfig {
    /// The settings applied to the builder.
    pub closed spec fn settings(&self) -> SessionSettings {
        self.applied@
    }

    /// A builder with openssh's default settings and nothing applied.
    pub fn new() -> (r: Self)
        ensures
            r.settings() == unset_settings(),
    {
        SessionConfig { builder: new_session_builder(), applied: Ghost(unset_settings()) }
    }
}

impl std::ops::Deref for SessionConfig {
    type Target = openssh::SessionBuilder;

    fn deref(&self) -> &openssh::SessionBuilder {
        &self.builder
    }
}

/// `openssh::SessionBuilder::default()`: a builder with openssh's default settings.
#[verifier::external_body]
fn new_session_builder() -> openssh::SessionBuilder {
    openssh::SessionBuilder::default()
}

/// `SessionBuilder::known_hosts_check(KnownHosts::Strict)`: an unknown or changed host key
/// refuses the connection. The contract records that strict checking was set.
#[verifier::external_body]
fn check_known_hosts_strictly(config: &mut SessionConfig)
    ensures
        final(config).settings() == (SessionSettings { strict_host_keys: true, ..old(config).settings() }),
{
    config.builder.known_hosts_check(openssh::KnownHosts::Strict);
}

/// `SessionBuilder::control_persist(ControlPersist::ClosedAfterInitialConnection)`: the
/// master connection ends with the session. The contract records that this was set.
#[verifier::external_body]
fn close_master_after_session(config: &mut SessionConfig)
    ensures
        final(config).settings() == (SessionSettings { close_master_after_session: true, ..old(config).settings() }),
{
    config.builder.control_persist(openssh::ControlPersist::ClosedAfterInitialConnection);
}

/// `SessionBuilder::connect_timeout`; the contract records the timeout given.
#[verifier::external_body]
fn set_connect_timeout(config: &mut SessionConfig, timeout: std::time::Duration)
    ensures
        final(config).settings() == (SessionSettings { connect_timeout: Some(timeout), ..old(config).settings() }),
{
    config.builder.connect_timeout(timeout);
}

/// `SessionBuilder::config_file`; the contract records the path given.
#[verifier::external_body]
fn set_config_file(config: &mut SessionConfig, path: &std::path::PathBuf)
    ensures
        final(config).settings() == (SessionSettings { config_file: Some(*path), ..old(config).settings() }),
{
    config.builder.config_file(path);
}

/// `SessionBuilder::user_known_hosts_file`; the contract records the path given.
#[verifier::external_body]
fn set_user_known_hosts_file(config: &mut SessionConfig, path: &std::path::PathBuf)
    ensures
        final(config).settings() == (SessionSettings { known_hosts_file: Some(*path), ..old(config).settings() }),
{
    config.builder.user_known_hosts_file(path);
}

/// `SessionBuilder::control_directory`; the contract records the path given.
#[verifier::external_body]
fn set_control_directory(config: &mut SessionConfig, path: &std::path::PathBuf)
    ensures
        final(config).settings() == (SessionSettings { control_directory: Some(*path), ..old(config).settings() }),
{
    config.builder.control_directory(path);
}

/// `SessionBuilder::user`; the contract records the user given.
#[verifier::external_body]
fn set_user(config: &mut SessionConfig, user: String)
    ensures
        final(config).settings() == (SessionSettings { user: Some(user@), ..old(config).settings() }),
{
    config.builder.user(user);
}

/// `SessionBuilder::keyfile`; the contract records the key file given.
#[verifier::external_body]
fn set_keyfile(config: &mut SessionConfig, keyfile: String)
    ensures
        final(config).settings() == (SessionSettings { keyfile: Some(keyfile@), ..old(config).settings() }),
{
    config.builder.keyfile(keyfile);
}

/// The settings a session for `profile` is built with, when the profile is valid: host keys
/// are checked strictly, the master connection ends with the session, the options' timeout,
/// configuration file, known-hosts file and control directory are applied, and the user and
/// key file are those the profile decides.
pub open spec fn expected_settings(
    options: ConnectionOptions,
    user: Option<Seq<char>>,
    keyfile: Option<Seq<char>>,
) -> SessionSettings {
    SessionSettings {
        strict_host_keys: true,
        close_master_after_session: true,
        connect_timeout: Some(options.connect_timeout),
        config_file: options.config_file,
        known_hosts_file: options.known_hosts_file,
        control_directory: options.control_directory,
        user,
        keyfile,
    }
}

/// Validates `profile` and prepares its SSH session with `expected_settings`. Returns the
/// configured builder and the destination to connect to.
pub fn connection_builder(profile: &ConnectionProfile, options: &ConnectionOptions) -> (r: Result<
    (SessionConfig, String),
    SftpFailure,
>)
    ensures
        match r {
            Ok((config, destination)) => destination@ == profile.host@ && match spec_session_settings(*profile) {
                Ok((user, keyfile)) => config.settings() == expected_settings(*options, user, keyfile),
                Err(_) => false,
            },
            Err(f) => spec_session_settings(*profile) == Err::<(Option<Seq<char>>, Option<Seq<char>>), SftpFailure>(f),
        },
{
    let plan = match session_plan(profile, options) {
        Ok(plan) => plan,
        Err(f) => return Err(f),
    };
    let mut config = SessionConfig::new();
    check_known_hosts_strictly(&mut config);
    set_connect_timeout(&mut config, plan.connect_timeout);
    close_master_after_session(&mut config);
    match &options.config_file {
        Some(path) => set_config_file(&mut config, path),
        None => {},
    }
    match &options.known_hosts_file {
        Some(path) => set_user_known_hosts_file(&mut config, path),
        None => {},
    }
    match &options.control_directory {
        Some(path) => set_control_directory(&mut config, path),
        None => {},
    }
    match plan.user {
        Some(user) => set_user(&mut config, user),
        None => {},
    }
    match plan.keyfile {
        Some(keyfile) => set_keyfile(&mut config, keyfile),
        None => {},
    }
    Ok((config, plan.destination))
}

// ---------------------------------------------------------------------------
// Connection failures
// ---------------------------------------------------------------------------
/// What the classification reads of a failed connection: whether the failure came from
/// establishing the connection, whether the system denied permission, and the
/// diagnostic text.
#[derive(Debug)]
pub struct ConnectFailure {
    pub connect: bool,
    pub permission_denied: bool,
    pub diagnostic: String,
}

/// A connection failure is an authentication failure when permission was denied, a host
/// verification failure when its diagnostic says so (ignoring ASCII case), and otherwise
/// a retryable connection failure.
pub open spec fn spec_classify_connect_failure(connect: bool, permission_denied: bool, diagnostic: Seq<char>) -> SftpFailure {
    let lower = text::lower_seq(diagnostic);
    if connect && permission_denied {
        SftpFailure { kind: SftpFailureKind::Authentication, retryable: false }
    } else if connect && (text::has_text(lower, "host key verification failed"@) || text::has_text(
        lower,
        "remote host identification has changed"@,
    )) {
        SftpFailure { kind: SftpFailureKind::HostVerification, retryable: false }
    } else {
        SftpFailure { kind: SftpFailureKind::Connection, retryable: true }
    }
}

pub fn classify_connect_failure(failed: &ConnectFailure) -> (r: SftpFailure)
    ensures
        r == spec_classify_connect_failure(failed.connect, failed.permission_denied, failed.diagnostic@),
{
    if failed.connect && failed.permission_denied {
        return failure(SftpFailureKind::Authentication, false);
    }
    if failed.connect {
        let diagnostic = lower_chars(&chars_of(failed.diagnostic.as_str()));
        let host_key = chars_of("host key verification failed");
        let changed = chars_of("remote host identification has changed");
        if contains_text(&diagnostic, &host_key) || contains_text(&diagnostic, &changed) {
            return failure(SftpFailureKind::HostVerification, false);
        }
    }
    failure(SftpFailureKind::Connection, true)
}

/// Reads a connection error of `openssh`: whether it is `Error::Connect`, whether its
/// I/O error kind is `PermissionDenied`, and its I/O error's text. The contract claims
/// nothing of the result.
#[verifier::external_body]
fn connect_failure_of(error: &openssh::Error) -> ConnectFailure {
    match error {
        openssh::Error::Connect(source) => ConnectFailure {
            connect: true,
            permission_denied: source.kind() == std::io::ErrorKind::PermissionDenied,
            diagnostic: source.to_string(),
        },
        _ => ConnectFailure { connect: false, permission_denied: false, diagnostic: String::new() },
    }
}

/// Classifies a failed SSH connection without exposing its diagnostic.
pub fn classify_openssh_error(error: openssh::Error) -> (r: SftpFailure)
    ensures
        exists|connect: bool, permission_denied: bool, diagnostic: Seq<char>|
            r == spec_classify_connect_failure(connect, permission_denied, diagnostic),
{
    let failed = connect_failure_of(&error);
    classify_connect_failure(&failed)
}

// ---------------------------------------------------------------------------
// Remote listings
// ---------------------------------------------------------------------------
/// What the server reported of one directory entry: its name when it is UTF-8, its kind
/// when reported, and its length when reported. An entry that could not be read has none.
#[derive(Debug)]
pub struct RemoteCandidate {
    pub name: Option<String>,
    pub kind: Option<ObservedKind>,
    pub size: Option<u64>,
}

/// The entry kind of a listed file or directory.
pub open spec fn entry_kind_of(kind: ObservedKind) -> EntryKind {
    if kind == ObservedKind::Directory {
        EntryKind::Directory
    } else {
        EntryKind::File
    }
}

/// `.` and `..` are left out of a remote listing without counting.
pub open spec fn remote_ignored(c: RemoteCandidate) -> bool {
    c.name matches Some(n) && is_dot_name(n@)
}

/// A remote entry is listed when its name is safe and it is a directory, or a file of
/// known length.
pub open spec fn remote_kept(c: RemoteCandidate) -> bool {
    &&& c.name matches Some(n) && spec_is_safe_entry_name(n@)
    &&& c.kind matches Some(k) && (k == ObservedKind::Directory || (k == ObservedKind::File && c.size is Some))
}

/// The listed entry for a kept candidate of `directory`.
pub open spec fn remote_entry_for(directory: Seq<char>, c: RemoteCandidate, e: BrowserEntry) -> bool {
    &&& e.name@ == c.name->0@
    &&& e.path@ == paths::spec_join_logical_path(directory, c.name->0@)
    &&& e.kind == entry_kind_of(c.kind->0)
    &&& e.size == if c.kind->0 == ObservedKind::File {
        c.size
    } else {
        None
    }
}

/// `kept` holds the listed entries of `candidates`, in order.
pub open spec fn remote_listed(directory: Seq<char>, candidates: Seq<RemoteCandidate>, kept: Seq<BrowserEntry>) -> bool
    decreases candidates.len(),
{
    if candidates.len() == 0 {
        kept.len() == 0
    } else if remote_kept(candidates.last()) {
        kept.len() > 0 && remote_entry_for(directory, candidates.last(), kept.last()) && remote_listed(
            directory,
            candidates.drop_last(),
            kept.drop_last(),
        )
    } else {
        remote_listed(directory, candidates.drop_last(), kept)
    }
}

/// The entries skipped as unsafe or unreadable.
pub open spec fn remote_skipped(candidates: Seq<RemoteCandidate>) -> nat
    decreases candidates.len(),
{
    if candidates.len() == 0 {
        0
    } else {
        remote_skipped(candidates.drop_last()) + if remote_kept(candidates.last()) || remote_ignored(
            candidates.last(),
        ) {
            0nat
        } else {
            1nat
        }
    }
}

/// The canonical directory a remote listing may show: a UTF-8, absolute path without
/// control characters.
pub fn remote_directory_path(canonical: Option<String>) -> (r: Result<String, SftpFailure>)
    ensures
        match r {
            Ok(path) => canonical == Some(path) && spec_is_safe_remote_path(path@),
            Err(f) => f == (SftpFailure { kind: SftpFailureKind::InvalidRemotePath, retryable: false })
                && !(canonical matches Some(p) && spec_is_safe_remote_path(p@)),
        },
{
    match canonical {
        Some(path) => {
            if is_safe_remote_path(path.as_str()) {
                Ok(path)
            } else {
                Err(failure(SftpFailureKind::InvalidRemotePath, false))
            }
        },
        None => Err(failure(SftpFailureKind::InvalidRemotePath, false)),
    }
}

/// Lists the entries the server reported for `directory`: safe directories and files of
/// known length, ordered as browsers show them; every other entry but `.` and `..` is
/// counted as skipped.
pub fn remote_listing(directory: String, candidates: &Vec<RemoteCandidate>) -> (r: RemoteDirectory)
    requires
        candidates@.len() <= usize::MAX,
    ensures
        r.path == directory,
        r.skipped_entries == remote_skipped(candidates@),
        order::is_listing_sorted(r.entries@),
        exists|kept: Seq<BrowserEntry>|
            remote_listed(directory@, candidates@, kept) && r.entries@.to_multiset() == kept.to_multiset()
                && order::keeps_tie_order(kept, r.entries@),
{
    let mut kept: Vec<BrowserEntry> = Vec::new();
    let mut skipped: usize = 0;
    let mut i: usize = 0;
    while i < candidates.len()
        invariant
            i <= candidates.len(),
            skipped == remote_skipped(candidates@.take(i as int)),
            skipped <= i,
            remote_listed(directory@, candidates@.take(i as int), kept@),
        decreases candidates.len() - i,
    {
        let c = &candidates[i];
        proof {
            assert(candidates@.take(i + 1).drop_last() =~= candidates@.take(i as int));
            assert(candidates@.take(i + 1).last() == *c);
        }
        match &c.name {
            None => {
                skipped = skipped + 1;
            },
            Some(name) => {
                let v = chars_of(name.as_str());
                if !is_safe_entry_name(name.as_str()) {
                    if !dot_name(&v) {
                        skipped = skipped + 1;
                    }
                } else {
                    let listed = match c.kind {
                        Some(ObservedKind::Directory) => Some((EntryKind::Directory, None)),
                        Some(ObservedKind::File) => match c.size {
                            Some(size) => Some((EntryKind::File, Some(size))),
                            None => None,
                        },
                        _ => None,
                    };
                    match listed {
                        None => {
                            skipped = skipped + 1;
                        },
                        Some((kind, size)) => {
                            let entry = BrowserEntry {
                                name: name.clone(),
                                path: join_remote_path(directory.as_str(), name.as_str()),
                                kind,
                                size,
                            };
                            let ghost before = kept@;
                            kept.push(entry);
                            assert(kept@.drop_last() =~= before);
                        },
                    }
                }
            },
        }
        i = i + 1;
    }
    assert(candidates@.take(candidates.len() as int) =~= candidates@);
    let ghost unsorted = kept@;
    let entries = sort_entries(kept);
    RemoteDirectory { path: directory, entries, skipped_entries: skipped }
}

} // verus!
