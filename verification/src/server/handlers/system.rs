//! The system endpoints: ZeroTier installation, the planet file and moon
//! generation.
use crate::command::{run, step_views, Action, ActionView, OnFailure, Step, StepView};
use crate::server::error::ApiError;
use crate::server::validate::invalid;
use crate::zerotier::detection::{
    install, install_command, manager_name, InstallDecision, InstallResult, PackageManager,
    ZtDetectionResult,
};
use crate::text::{chars_of, is_blank, lit, push_str, slice, str_eq, string_of, strip_char_start, trim, trim_vec};
use base64::Engine;
use vstd::prelude::*;

verus! {

/// `POST /api/system/zt-install`: with no package manager found the
/// platform is unsupported; else what `detection::install` decides for that
/// manager, given what is found now.
pub fn zt_install(
    pm: Option<PackageManager>,
    current: ZtDetectionResult,
    os: &str,
    dnf_available: bool,
) -> (r: InstallDecision)
    ensures
        pm is None ==> (r matches InstallDecision::Done(InstallResult::UnsupportedPlatform { reason })
            && reason@ == "No supported package manager found (apt, dnf, pacman, brew)"@),
        pm is Some && current.zerotier_one is Some ==> (r matches InstallDecision::Done(
            InstallResult::AlreadyInstalled(d),
        ) && d == current),
        pm is Some && current.zerotier_one is None && os@ == "windows"@ ==> (r matches InstallDecision::Done(
            InstallResult::UnsupportedPlatform { reason },
        ) && reason@ == "Windows: install ZeroTier from https://www.zerotier.com/download/"@),
        pm is Some && current.zerotier_one is None && os@ != "windows"@ ==> (r matches InstallDecision::Run { step, failure }
            && step@ == install_command(pm->0, dnf_available) && failure@ == "Package manager "@ + manager_name(pm->0)
            + " failed. Try manually: https://www.zerotier.com/download/"@),
{
    match pm {
        Some(p) => install(p, current, os, dnf_available),
        None => InstallDecision::Done(InstallResult::UnsupportedPlatform {
            reason: "No supported package manager found (apt, dnf, pacman, brew)".to_owned(),
        }),
    }
}

/// `GET /api/system/planet`.
#[derive(Debug, Clone)]
pub struct PlanetFileInfo {
    pub is_custom: bool,
    pub base64: Option<String>,
    pub modified_ms: Option<u64>,
}

/// `PUT /api/system/planet`.
#[derive(Debug, Clone)]
pub struct PlanetFileUpload {
    pub base64: String,
}

/// `POST /api/system/moon`.
#[derive(Debug, Clone)]
pub struct GenerateMoonRequest {
    pub stable_endpoint: String,
    pub identity_path: Option<String>,
}

#[derive(Debug, Clone)]
pub struct GenerateMoonResponse {
    pub world_id: String,
    pub moon_file_base64: String,
    pub instructions: String,
}

pub open spec fn planet_path() -> Seq<char> {
    "/var/lib/zerotier-one/planet"@
}

pub open spec fn planet_backup_path() -> Seq<char> {
    "/var/lib/zerotier-one/planet.default"@
}

/// What the standard base64 engine encodes `bytes` to.
pub uninterp spec fn base64_text(bytes: Seq<u8>) -> Seq<char>;

/// What the standard base64 engine decodes `text` to: the bytes, or the
/// error's text.
pub uninterp spec fn base64_bytes(text: Seq<char>) -> Result<Seq<u8>, Seq<char>>;

/// `base64::engine::general_purpose::STANDARD.encode`.
#[verifier::external_body]
fn encode_base64(bytes: &[u8]) -> (r: String)
    requires
        bytes@.len() <= usize::MAX / 2,
    ensures
        r@ == base64_text(bytes@),
{
    base64::engine::general_purpose::STANDARD.encode(bytes)
}

/// `base64::engine::general_purpose::STANDARD.decode`, the error as text.
#[verifier::external_body]
fn decode_base64(text: &str) -> (r: Result<Vec<u8>, String>)
    ensures
        match r {
            Ok(v) => base64_bytes(text@) == Ok::<Seq<u8>, Seq<char>>(v@),
            Err(e) => base64_bytes(text@) == Err::<Seq<u8>, Seq<char>>(e@),
        },
{
    match base64::engine::general_purpose::STANDARD.decode(text) {
        Ok(v) => Ok(v),
        Err(e) => Err(e.to_string()),
    }
}

/// What `GET /api/system/planet` answers: no file, or its bytes in base64,
/// whether a backup (hence a custom planet) exists, and its time.
pub fn planet_info(file: Option<Vec<u8>>, modified_ms: Option<u64>, backup_exists: bool) -> (r: PlanetFileInfo)
    requires
        file matches Some(b) ==> b@.len() <= usize::MAX / 2,
    ensures
        file is None ==> !r.is_custom && r.base64 is None && r.modified_ms is None,
        file is Some ==> (r.is_custom == backup_exists && r.modified_ms == modified_ms
            && r.base64 is Some && r.base64->0@ == base64_text(file->0@)),
{
    match file {
        None => PlanetFileInfo { is_custom: false, base64: None, modified_ms: None },
        Some(bytes) => PlanetFileInfo {
            is_custom: backup_exists,
            base64: Some(encode_base64(bytes.as_slice())),
            modified_ms,
        },
    }
}

/// The step that tells zerotier-one to reload its files.
pub open spec fn hup_step() -> StepView {
    run("pkill"@, seq!["-HUP"@, "zerotier-one"@], OnFailure::Ignore)
}

fn hup() -> (r: Step)
    ensures
        r@ == hup_step(),
{
    let a = ["-HUP", "zerotier-one"];
    assert(a@.map_values(|x: &str| x@) =~= seq!["-HUP"@, "zerotier-one"@]);
    crate::command::run_step("pkill", &a, OnFailure::Ignore)
}

/// The steps of an upload of `bytes`: the default planet kept as a backup
/// the first time, the new one written, the daemon told.
pub open spec fn upload_spec(bytes: Seq<u8>, planet_exists: bool, backup_exists: bool) -> Seq<StepView> {
    let backup: Seq<StepView> = if planet_exists && !backup_exists {
        seq![StepView { action: ActionView::Copy { from: planet_path(), to: planet_backup_path() }, on_failure: OnFailure::Abort }]
    } else {
        seq![]
    };
    backup + seq![
        StepView { action: ActionView::WriteBytes { path: planet_path(), content: bytes }, on_failure: OnFailure::Abort },
        hup_step(),
    ]
}

/// Decides an upload: a non-empty, decodable base64 text.
pub fn plan_upload(body: &PlanetFileUpload, planet_exists: bool, backup_exists: bool) -> (r: Result<Vec<Step>, ApiError>)
    ensures
        body.base64@.len() == 0 ==> invalid(r, "base64 must not be empty"@),
        body.base64@.len() != 0 ==> match base64_bytes(body.base64@) {
            Err(e) => invalid(r, "invalid base64: "@ + e),
            Ok(bytes) => r matches Ok(v) && step_views(v@) == upload_spec(bytes, planet_exists, backup_exists),
        },
{
    if body.base64.as_str().is_empty() {
        return Err(ApiError::InvalidInput("base64 must not be empty".to_owned()));
    }
    let bytes = match decode_base64(body.base64.as_str()) {
        Ok(b) => b,
        Err(e) => {
            let mut m = lit("invalid base64: ");
            push_str(&mut m, e.as_str());
            return Err(ApiError::InvalidInput(string_of(&m)));
        },
    };
    let mut r: Vec<Step> = Vec::new();
    if planet_exists && !backup_exists {
        r.push(Step {
            action: Action::Copy {
                from: "/var/lib/zerotier-one/planet".to_owned(),
                to: "/var/lib/zerotier-one/planet.default".to_owned(),
            },
            on_failure: OnFailure::Abort,
        });
    }
    let ghost head = step_views(r@);
    let ghost bv = bytes@;
    r.push(Step {
        action: Action::WriteBytes { path: "/var/lib/zerotier-one/planet".to_owned(), content: bytes },
        on_failure: OnFailure::Abort,
    });
    r.push(hup());
    assert(step_views(r@) =~= upload_spec(bv, planet_exists, backup_exists));
    Ok(r)
}

/// The steps of a reset: the backup restored and removed, or, without a
/// backup, the custom planet removed (the daemon then uses its built-in
/// one); then the daemon told.
pub open spec fn reset_spec(backup_exists: bool) -> Seq<StepView> {
    if backup_exists {
        seq![
            StepView { action: ActionView::Copy { from: planet_backup_path(), to: planet_path() }, on_failure: OnFailure::Abort },
            StepView { action: ActionView::Remove { path: planet_backup_path() }, on_failure: OnFailure::Ignore },
            hup_step(),
        ]
    } else {
        seq![
            StepView { action: ActionView::Remove { path: planet_path() }, on_failure: OnFailure::Ignore },
            hup_step(),
        ]
    }
}

pub fn plan_reset(backup_exists: bool) -> (r: Vec<Step>)
    ensures
        step_views(r@) == reset_spec(backup_exists),
{
    let mut r: Vec<Step> = Vec::new();
    if backup_exists {
        r.push(Step {
            action: Action::Copy {
                from: "/var/lib/zerotier-one/planet.default".to_owned(),
                to: "/var/lib/zerotier-one/planet".to_owned(),
            },
            on_failure: OnFailure::Abort,
        });
        r.push(Step { action: Action::Remove { path: "/var/lib/zerotier-one/planet.default".to_owned() }, on_failure: OnFailure::Ignore });
    } else {
        r.push(Step { action: Action::Remove { path: "/var/lib/zerotier-one/planet".to_owned() }, on_failure: OnFailure::Ignore });
    }
    r.push(hup());
    assert(step_views(r@) =~= reset_spec(backup_exists));
    r
}

/// A moon request needs a stable endpoint; yields the identity file to read
/// (the node's public identity by default).
pub fn check_moon(req: &GenerateMoonRequest) -> (r: Result<String, ApiError>)
    ensures
        trim(req.stable_endpoint@).len() == 0 ==> invalid(r, "stable_endpoint is required (e.g. '1.2.3.4/9993')"@),
        trim(req.stable_endpoint@).len() != 0 ==> (r is Ok && r->Ok_0@ == match req.identity_path {
            Some(p) => p@,
            None => "/var/lib/zerotier-one/identity.public"@,
        }),
{
    if is_blank(req.stable_endpoint.as_str()) {
        return Err(ApiError::InvalidInput("stable_endpoint is required (e.g. '1.2.3.4/9993')".to_owned()));
    }
    match &req.identity_path {
        Some(p) => Ok(p.clone()),
        None => Ok("/var/lib/zerotier-one/identity.public".to_owned()),
    }
}

/// The world ID of a generated moon: the `.moon` file's stem without its
/// leading zeros.
pub fn world_id_of(stem: &str) -> (r: String)
    ensures
        r@ == strip_char_start(stem@, '0'),
{
    let c = crate::text::chars_of(stem);
    let mut i: usize = 0;
    assert(c@.skip(0) =~= c@);
    while i < c.len() && c[i] == '0'
        invariant
            i <= c.len(),
            strip_char_start(c@, '0') == strip_char_start(c@.skip(i as int), '0'),
        decreases c.len() - i,
    {
        assert(c@.skip(i as int).drop_first() =~= c@.skip(i + 1));
        i += 1;
    }
    assert(c@.subrange(i as int, c.len() as int) =~= c@.skip(i as int));
    string_of(&crate::text::slice(&c, i, c.len()))
}

pub open spec fn moon_instructions(w: Seq<char>) -> Seq<char> {
    "1. Copy the .moon file to /var/lib/zerotier-one/moons.d/ on your root server.\n2. Restart zerotier-one on the root server.\n3. Orbit this moon on client nodes: zerotier-cli orbit "@
        + w + " "@ + w + "\n4. Or use the 'Orbit a Moon' form on this page with World ID: "@ + w
}

/// The answer for a generated moon: its world ID, its file in base64 and
/// how to deploy it.
pub fn moon_response(stem: &str, moon: &[u8]) -> (r: GenerateMoonResponse)
    requires
        moon@.len() <= usize::MAX / 2,
    ensures
        r.world_id@ == strip_char_start(stem@, '0'),
        r.moon_file_base64@ == base64_text(moon@),
        r.instructions@ == moon_instructions(r.world_id@),
{
    let w = world_id_of(stem);
    let mut b = lit(
        "1. Copy the .moon file to /var/lib/zerotier-one/moons.d/ on your root server.\n2. Restart zerotier-one on the root server.\n3. Orbit this moon on client nodes: zerotier-cli orbit ",
    );
    push_str(&mut b, w.as_str());
    push_str(&mut b, " ");
    push_str(&mut b, w.as_str());
    push_str(&mut b, "\n4. Or use the 'Orbit a Moon' form on this page with World ID: ");
    push_str(&mut b, w.as_str());
    GenerateMoonResponse { world_id: w, moon_file_base64: encode_base64(moon), instructions: string_of(&b) }
}

// ── Moon generation: the tool and its output ─────────────────────────────────

/// Where `zerotier-idtool` is looked for before the `PATH`.
pub open spec fn idtool_candidates_spec() -> Seq<Seq<char>> {
    seq![
        "/usr/sbin/zerotier-idtool"@,
        "/usr/local/sbin/zerotier-idtool"@,
        "/usr/bin/zerotier-idtool"@,
    ]
}

pub fn idtool_candidates() -> (r: Vec<String>)
    ensures
        crate::command::string_views(r@) == idtool_candidates_spec(),
{
    let r = crate::command::strings(
        &["/usr/sbin/zerotier-idtool", "/usr/local/sbin/zerotier-idtool", "/usr/bin/zerotier-idtool"],
    );
    assert(crate::command::string_views(r@) =~= idtool_candidates_spec());
    r
}

/// The `zerotier-idtool` to run: the first candidate that exists; else what
/// `which zerotier-idtool` printed, trimmed (`which_output` is present when
/// that command succeeded with text output); else none.
pub fn which_idtool(exists: [bool; 3], which_output: Option<String>) -> (r: Option<String>)
    ensures
        (exists|i: int| 0 <= i < 3 && exists@[i]) ==> (r matches Some(p) && exists|i: int|
            0 <= i < 3 && exists@[i] && p@ == idtool_candidates_spec()[i] && forall|j: int| 0 <= j < i ==> !exists@[j]),
        (forall|i: int| 0 <= i < 3 ==> !exists@[i]) ==> match which_output {
            Some(o) => r matches Some(p) && p@ == trim(o@),
            None => r is None,
        },
{
    let c = idtool_candidates();
    assert(c@.len() == crate::command::string_views(c@).len());
    let mut i: usize = 0;
    while i < 3
        invariant
            i <= 3,
            c@.len() == 3,
            crate::command::string_views(c@) == idtool_candidates_spec(),
            forall|j: int| 0 <= j < i ==> !exists@[j],
        decreases 3 - i,
    {
        if exists[i] {
            assert(c@[i as int]@ == idtool_candidates_spec()[i as int]);
            return Some(c[i].clone());
        }
        i += 1;
    }
    match which_output {
        Some(o) => Some(string_of(&trim_vec(&chars_of(o.as_str())))),
        None => None,
    }
}

/// The position of the last `.` in `s`.
pub open spec fn last_dot(s: Seq<char>) -> Option<int>
    decreases s.len(),
{
    if s.len() == 0 {
        None
    } else if s.last() == '.' {
        Some(s.len() - 1)
    } else {
        last_dot(s.drop_last())
    }
}

/// The stem of a file name whose extension is `moon`, splitting as
/// `Path::extension` and `Path::file_stem` do: at the last dot, unless that
/// dot starts the name.
pub open spec fn moon_stem_spec(name: Seq<char>) -> Option<Seq<char>> {
    match last_dot(name) {
        Some(i) => if i > 0 && name.skip(i + 1) == "moon"@ {
            Some(name.take(i))
        } else {
            None
        },
        None => None,
    }
}

/// The stem of `name` when it is a `.moon` file (the file `genmoon`
/// writes); none for any other name.
pub fn moon_stem(name: &str) -> (r: Option<String>)
    ensures
        match r {
            Some(s) => moon_stem_spec(name@) == Some(s@),
            None => moon_stem_spec(name@) is None,
        },
{
    let c = chars_of(name);
    let mut i: usize = c.len();
    assert(c@.take(i as int) =~= c@);
    while i > 0 && c[i - 1] != '.'
        invariant
            i <= c.len(),
            c@ == name@,
            last_dot(c@) == last_dot(c@.take(i as int)),
        decreases i,
    {
        assert(c@.take(i as int).drop_last() =~= c@.take(i - 1));
        i -= 1;
    }
    if i <= 1 {
        assert(i == 1 ==> c@.take(i as int).last() == '.');
        return None;
    }
    assert(c@.take(i as int).last() == '.');
    let ext = string_of(&slice(&c, i, c.len()));
    assert(c@.subrange(i as int, c.len() as int) =~= c@.skip(i as int));
    if str_eq(ext.as_str(), "moon") {
        assert(c@.subrange(0, i - 1) =~= c@.take(i - 1));
        Some(string_of(&slice(&c, 0, i - 1)))
    } else {
        None
    }
}

} // verus!
