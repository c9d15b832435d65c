//! WireGuard controller logic: what the tunnel is called, which configs are
//! accepted, where the WireGuard tools are looked for, and how the outcome of
//! a tool run is reported.

use vstd::prelude::*;
use crate::sys::path_exists;
use crate::text::{contains_str, contains_trimmed_line, contains_run, has_trimmed_line, trim, trim_end, trim_start, trim_str};

verus! {

/// Name of the tunnel (and of its interface and config file).
pub const TUNNEL_NAME: &'static str = "Chatte";

/// Error given for a config that is not a WireGuard config.
pub open spec fn invalid_config_message() -> Seq<char> {
    "server returned an invalid WireGuard config"@
}

/// A WireGuard config holds an `[Interface]` and a `[Peer]` section header,
/// each on a line of its own (white space around it aside).
pub open spec fn is_wireguard_config(config: Seq<char>) -> bool {
    has_trimmed_line(config, "[Interface]"@) && has_trimmed_line(config, "[Peer]"@)
}

/// Check that `config` looks like a WireGuard config before it is handed to
/// the tunnel service: the backend is only semi-trusted.
pub fn validate_config(config: &str) -> (r: Result<(), String>)
    ensures
        r is Ok <==> is_wireguard_config(config@),
        r matches Err(e) ==> e@ == invalid_config_message(),
{
    if !contains_trimmed_line(config, "[Interface]") || !contains_trimmed_line(config, "[Peer]") {
        return Err(String::from_str("server returned an invalid WireGuard config"));
    }
    Ok(())
}

/// What a run of an outside tool comes to: its standard output when it
/// succeeded, else its standard output followed by its standard error,
/// trimmed.
pub open spec fn spec_command_outcome(success: bool, stdout: Seq<char>, stderr: Seq<char>) -> Result<Seq<char>, Seq<char>> {
    if success {
        Ok(stdout)
    } else {
        Err(trim(stdout + stderr))
    }
}

/// A tool run comes to success exactly when the tool exited with success;
/// then it is the tool's standard output, whatever it wrote to standard
/// error; a failed run is an error holding all the tool said, trimmed, even
/// when it said nothing.
pub proof fn law_failed_runs_are_errors(success: bool, stdout: Seq<char>, stderr: Seq<char>)
    ensures
        spec_command_outcome(success, stdout, stderr) is Ok <==> success,
        success ==> spec_command_outcome(success, stdout, stderr) == Ok::<Seq<char>, Seq<char>>(stdout),
        !success ==> spec_command_outcome(success, stdout, stderr) == Err::<Seq<char>, Seq<char>>(
            trim(stdout + stderr),
        ),
        !success && stdout.len() == 0 && stderr.len() == 0 ==> spec_command_outcome(success, stdout, stderr)
            == Err::<Seq<char>, Seq<char>>(Seq::empty()),
{
    if stdout.len() == 0 && stderr.len() == 0 {
        assert(stdout + stderr =~= Seq::<char>::empty());
        assert(trim_start(Seq::<char>::empty()) == Seq::<char>::empty());
        assert(trim_end(Seq::<char>::empty()) == Seq::<char>::empty());
    }
}

/// Turn the exit status and the (decoded) output of a tool run into its result.
pub fn command_outcome(success: bool, stdout: String, stderr: String) -> (r: Result<String, String>)
    ensures
        match (r, spec_command_outcome(success, stdout@, stderr@)) {
            (Ok(a), Ok(b)) => a@ == b,
            (Err(a), Err(b)) => a@ == b,
            _ => false,
        },
        r is Ok <==> success,
        success ==> r == Ok::<String, String>(stdout),
        !success ==> (r matches Err(e) && e@ == trim(stdout@ + stderr@)),
{
    if success {
        Ok(stdout)
    } else {
        let both = stdout.concat(stderr.as_str());
        Err(trim_str(both.as_str()))
    }
}

/// The message shown when installing the tunnel service failed: the tool's
/// own words, or a hint about elevation when it said nothing.
pub fn install_failure_message(e: String) -> (r: String)
    ensures
        e@.len() == 0 ==> r@ == "failed to install tunnel service (is the app running as Administrator?)"@,
        e@.len() > 0 ==> r@ == e@,
{
    if e.as_str().is_empty() {
        String::from_str("failed to install tunnel service (is the app running as Administrator?)")
    } else {
        e
    }
}

/// The message shown when `wg-quick up` failed: the tool's own words, or a
/// hint about the authorization dialog when it said nothing.
pub fn tunnel_up_failure_message(e: String) -> (r: String)
    ensures
        e@.len() == 0 ==> r@ == "failed to bring the tunnel up (authorization dialog dismissed?)"@,
        e@.len() > 0 ==> r@ == e@,
{
    if e.as_str().is_empty() {
        String::from_str("failed to bring the tunnel up (authorization dialog dismissed?)")
    } else {
        e
    }
}

/// File name of the tunnel's config: the tunnel name with `.conf`.
pub fn conf_file_name() -> (r: String)
    ensures
        r@ == TUNNEL_NAME@ + ".conf"@,
{
    String::from_str(TUNNEL_NAME).concat(".conf")
}

/// Name of the Windows service that runs the tunnel.
pub fn tunnel_service_name() -> (r: String)
    ensures
        r@ == "WireGuardTunnel$"@ + TUNNEL_NAME@,
{
    String::from_str("WireGuardTunnel$").concat(TUNNEL_NAME)
}

/// Path under which the kernel shows the tunnel's interface while it is up.
pub fn interface_path() -> (r: String)
    ensures
        r@ == "/sys/class/net/"@ + TUNNEL_NAME@,
{
    String::from_str("/sys/class/net/").concat(TUNNEL_NAME)
}

/// Whether the output of `sc query` on the tunnel service says that it runs.
pub fn service_is_running(sc_output: &str) -> (r: bool)
    ensures
        r == contains_run(sc_output@, "RUNNING"@),
{
    contains_str(sc_output, "RUNNING")
}

/// The views of a sequence of strings.
pub open spec fn views(s: Seq<String>) -> Seq<Seq<char>> {
    s.map_values(|x: String| x@)
}

/// `r` is `s`, each string taken by its view.
pub open spec fn same_outcome(r: Result<String, String>, s: Result<Seq<char>, Seq<char>>) -> bool {
    match (r, s) {
        (Ok(a), Ok(b)) => a@ == b,
        (Err(a), Err(b)) => a@ == b,
        _ => false,
    }
}

/// The first candidate that is present (`present[i]` tells whether
/// `candidates[i]` exists), or `missing` when none is.
pub open spec fn pick_first(candidates: Seq<Seq<char>>, present: Seq<bool>, missing: Seq<char>) -> Result<Seq<char>, Seq<char>>
    decreases candidates.len(),
{
    if candidates.len() == 0 || present.len() == 0 {
        Err(missing)
    } else if present[0] {
        Ok(candidates[0])
    } else {
        pick_first(candidates.drop_first(), present.drop_first(), missing)
    }
}

proof fn lemma_pick_skip(candidates: Seq<Seq<char>>, present: Seq<bool>, missing: Seq<char>, i: int)
    requires
        0 <= i <= candidates.len(),
        present.len() == candidates.len(),
        forall|k: int| 0 <= k < i ==> !present[k],
    ensures
        pick_first(candidates, present, missing) == pick_first(
            candidates.skip(i),
            present.skip(i),
            missing,
        ),
    decreases i,
{
    if i == 0 {
        assert(candidates.skip(0) =~= candidates);
        assert(present.skip(0) =~= present);
    } else {
        lemma_pick_skip(candidates.drop_first(), present.drop_first(), missing, i - 1);
        assert(candidates.drop_first().skip(i - 1) =~= candidates.skip(i));
        assert(present.drop_first().skip(i - 1) =~= present.skip(i));
    }
}

/// Given which candidates exist (`present`, one answer per candidate, in
/// order), the first that exists, or `missing` as the error.
pub fn first_present(candidates: &Vec<String>, present: &Vec<bool>, missing: &str) -> (r: Result<String, String>)
    requires
        present@.len() == candidates@.len(),
    ensures
        same_outcome(r, pick_first(views(candidates@), present@, missing@)),
{
    let ghost c = views(candidates@);
    let mut i: usize = 0;
    while i < candidates.len()
        invariant
            i <= candidates@.len(),
            present@.len() == candidates@.len(),
            c == views(candidates@),
            forall|k: int| 0 <= k < i ==> !present@[k],
        decreases candidates.len() - i,
    {
        if present[i] {
            proof {
                lemma_pick_skip(c, present@, missing@, i as int);
                assert(c.skip(i as int)[0] == candidates@[i as int]@);
                assert(present@.skip(i as int)[0]);
            }
            return Ok(candidates[i].clone());
        }
        i = i + 1;
    }
    proof {
        lemma_pick_skip(c, present@, missing@, i as int);
    }
    Err(String::from_str(missing))
}

/// `r` is an answer the file system may give, through `path_exists`, about
/// a path that reads `path`.
pub open spec fn exists_answer(path: Seq<char>, r: bool) -> bool {
    exists|p: &str| p@ == path && #[trigger] call_ensures(path_exists, (p,), r)
}

/// Ask the file system whether `path` exists.
pub(crate) fn probe(path: &str) -> (r: bool)
    ensures
        exists_answer(path@, r),
{
    let ask = path_exists;
    let r = ask(path);
    assert(call_ensures(path_exists, (path,), r));
    r
}

/// The first of `candidates` that exists on this machine, or `missing` as the
/// error. The file system is asked about each candidate, in order, and the
/// result is what [`first_present`] makes of its answers.
pub fn first_installed(candidates: &Vec<String>, missing: &str) -> (r: Result<String, String>)
    ensures
        exists|present: Seq<bool>|
            present.len() == candidates@.len() && (forall|i: int|
                0 <= i < present.len() ==> exists_answer(candidates@[i]@, #[trigger] present[i]))
                && same_outcome(r, #[trigger] pick_first(views(candidates@), present, missing@)),
{
    let mut present: Vec<bool> = Vec::new();
    let mut i: usize = 0;
    while i < candidates.len()
        invariant
            i <= candidates@.len(),
            present@.len() == i,
            forall|k: int| 0 <= k < i ==> exists_answer(candidates@[k]@, #[trigger] present@[k]),
        decreases candidates.len() - i,
    {
        present.push(probe(candidates[i].as_str()));
        i = i + 1;
    }
    let r = first_present(candidates, &present, missing);
    assert(same_outcome(r, pick_first(views(candidates@), present@, missing@)));
    r
}

/// Where WireGuard for Windows is looked for, in order.
pub fn wireguard_candidates() -> (r: Vec<String>)
    ensures
        r@.len() == 2,
        r@[0]@ == "C:\\Program Files\\WireGuard\\wireguard.exe"@,
        r@[1]@ == "C:\\Program Files (x86)\\WireGuard\\wireguard.exe"@,
{
    let mut v: Vec<String> = Vec::new();
    v.push(String::from_str("C:\\Program Files\\WireGuard\\wireguard.exe"));
    v.push(String::from_str("C:\\Program Files (x86)\\WireGuard\\wireguard.exe"));
    v
}

/// Where `wg-quick` is looked for, in order.
pub fn wg_quick_candidates() -> (r: Vec<String>)
    ensures
        r@.len() == 2,
        r@[0]@ == "/usr/bin/wg-quick"@,
        r@[1]@ == "/usr/local/bin/wg-quick"@,
{
    let mut v: Vec<String> = Vec::new();
    v.push(String::from_str("/usr/bin/wg-quick"));
    v.push(String::from_str("/usr/local/bin/wg-quick"));
    v
}

/// What looking for `wireguard.exe` comes to, given which of its two places
/// exist: the standard place if it is there, else the x86 one, else an error
/// that tells where to get WireGuard.
pub open spec fn wireguard_lookup(present: Seq<bool>) -> Result<Seq<char>, Seq<char>> {
    pick_first(
        seq![
            "C:\\Program Files\\WireGuard\\wireguard.exe"@,
            "C:\\Program Files (x86)\\WireGuard\\wireguard.exe"@,
        ],
        present,
        "WireGuard is not installed. Install it from https://www.wireguard.com/install/"@,
    )
}

/// What looking for `wg-quick` comes to, given which of its two places
/// exist: `/usr/bin` first, then `/usr/local/bin`, else an error that tells
/// how to install WireGuard.
pub open spec fn wg_quick_lookup(present: Seq<bool>) -> Result<Seq<char>, Seq<char>> {
    pick_first(
        seq!["/usr/bin/wg-quick"@, "/usr/local/bin/wg-quick"@],
        present,
        "WireGuard is not installed. Install it with: sudo apt install wireguard"@,
    )
}

/// `wireguard.exe` is taken from the standard place whenever it is there;
/// the x86 place is used only when the standard one is not; WireGuard is
/// reported missing exactly when neither place has it.
pub proof fn law_wireguard_lookup(present: Seq<bool>)
    requires
        present.len() == 2,
    ensures
        present[0] ==> wireguard_lookup(present) == Ok::<Seq<char>, Seq<char>>(
            "C:\\Program Files\\WireGuard\\wireguard.exe"@,
        ),
        !present[0] && present[1] ==> wireguard_lookup(present) == Ok::<Seq<char>, Seq<char>>(
            "C:\\Program Files (x86)\\WireGuard\\wireguard.exe"@,
        ),
        wireguard_lookup(present) is Err <==> !present[0] && !present[1],
        wireguard_lookup(present) matches Err(e) ==> e
            == "WireGuard is not installed. Install it from https://www.wireguard.com/install/"@,
{
    let c = seq![
        "C:\\Program Files\\WireGuard\\wireguard.exe"@,
        "C:\\Program Files (x86)\\WireGuard\\wireguard.exe"@,
    ];
    let m = "WireGuard is not installed. Install it from https://www.wireguard.com/install/"@;
    reveal_with_fuel(pick_first, 3);
    assert(c.drop_first()[0] == c[1]);
    assert(present.drop_first()[0] == present[1]);
    assert(c.drop_first().drop_first().len() == 0);
    assert(pick_first(c.drop_first().drop_first(), present.drop_first().drop_first(), m) == Err::<Seq<char>, Seq<char>>(m));
}

/// `wg-quick` is taken from `/usr/bin` whenever it is there;
/// `/usr/local/bin` is used only when `/usr/bin` has none; WireGuard is
/// reported missing exactly when neither place has it.
pub proof fn law_wg_quick_lookup(present: Seq<bool>)
    requires
        present.len() == 2,
    ensures
        present[0] ==> wg_quick_lookup(present) == Ok::<Seq<char>, Seq<char>>("/usr/bin/wg-quick"@),
        !present[0] && present[1] ==> wg_quick_lookup(present) == Ok::<Seq<char>, Seq<char>>(
            "/usr/local/bin/wg-quick"@,
        ),
        wg_quick_lookup(present) is Err <==> !present[0] && !present[1],
        wg_quick_lookup(present) matches Err(e) ==> e
            == "WireGuard is not installed. Install it with: sudo apt install wireguard"@,
{
    let c = seq!["/usr/bin/wg-quick"@, "/usr/local/bin/wg-quick"@];
    let m = "WireGuard is not installed. Install it with: sudo apt install wireguard"@;
    reveal_with_fuel(pick_first, 3);
    assert(c.drop_first()[0] == c[1]);
    assert(present.drop_first()[0] == present[1]);
    assert(c.drop_first().drop_first().len() == 0);
    assert(pick_first(c.drop_first().drop_first(), present.drop_first().drop_first(), m) == Err::<Seq<char>, Seq<char>>(m));
}

/// The installed `wireguard.exe`: the first candidate that exists, else an
/// error that tells where to get WireGuard.
pub fn wireguard_exe() -> (r: Result<String, String>)
    ensures
        exists|present: Seq<bool>|
            present.len() == 2 && exists_answer("C:\\Program Files\\WireGuard\\wireguard.exe"@, present[0]) && exists_answer(
                "C:\\Program Files (x86)\\WireGuard\\wireguard.exe"@,
                present[1],
            ) && same_outcome(r, #[trigger] wireguard_lookup(present)),
{
    let c = wireguard_candidates();
    assert(views(c@) =~= seq![
        "C:\\Program Files\\WireGuard\\wireguard.exe"@,
        "C:\\Program Files (x86)\\WireGuard\\wireguard.exe"@,
    ]);
    let r = first_installed(&c, "WireGuard is not installed. Install it from https://www.wireguard.com/install/");
    let ghost present = choose|present: Seq<bool>|
        present.len() == c@.len() && (forall|i: int|
            0 <= i < present.len() ==> exists_answer(c@[i]@, #[trigger] present[i]))
            && same_outcome(r, #[trigger] pick_first(views(c@), present, "WireGuard is not installed. Install it from https://www.wireguard.com/install/"@));
    assert(exists_answer(c@[0]@, present[0]));
    assert(exists_answer(c@[1]@, present[1]));
    assert(same_outcome(r, wireguard_lookup(present)));
    r
}

/// The installed `wg-quick`: the first candidate that exists, else an error
/// that tells how to install WireGuard.
pub fn wg_quick() -> (r: Result<String, String>)
    ensures
        exists|present: Seq<bool>|
            present.len() == 2 && exists_answer("/usr/bin/wg-quick"@, present[0]) && exists_answer(
                "/usr/local/bin/wg-quick"@,
                present[1],
            ) && same_outcome(r, #[trigger] wg_quick_lookup(present)),
{
    let c = wg_quick_candidates();
    assert(views(c@) =~= seq!["/usr/bin/wg-quick"@, "/usr/local/bin/wg-quick"@]);
    let r = first_installed(&c, "WireGuard is not installed. Install it with: sudo apt install wireguard");
    let ghost present = choose|present: Seq<bool>|
        present.len() == c@.len() && (forall|i: int|
            0 <= i < present.len() ==> exists_answer(c@[i]@, #[trigger] present[i]))
            && same_outcome(r, #[trigger] pick_first(views(c@), present, "WireGuard is not installed. Install it with: sudo apt install wireguard"@));
    assert(exists_answer(c@[0]@, present[0]));
    assert(exists_answer(c@[1]@, present[1]));
    assert(same_outcome(r, wg_quick_lookup(present)));
    r
}

/// What taking the Linux tunnel down came to, and whether its config file
/// may now be deleted.
pub struct DownOutcome {
    pub result: Result<(), String>,
    pub remove_conf: bool,
}

/// The end of taking the Linux tunnel down. `down` is what running
/// `wg-quick down` came to, or none when the tunnel was not up and nothing
/// was run (so no authorization prompt appears for nothing). The config file
/// is deleted only when nothing failed: a failed `down` leaves it for the
/// next try.
pub fn finish_down(down: Option<Result<String, String>>) -> (r: DownOutcome)
    ensures
        match down {
            None => r.result is Ok,
            Some(Ok(_)) => r.result is Ok,
            Some(Err(e)) => r.result == Err::<(), String>(e),
        },
        r.remove_conf == (r.result is Ok),
{
    let result = match down {
        None => Ok(()),
        Some(Ok(_)) => Ok(()),
        Some(Err(e)) => Err(e),
    };
    let remove_conf = result.is_ok();
    DownOutcome { result, remove_conf }
}

/// Whether the tunnel is up on Linux: the kernel shows its interface only
/// while it is. The answer is what the file system says of the interface's
/// path, `/sys/class/net/` and the tunnel name.
pub fn is_connected() -> (r: bool)
    ensures
        exists_answer("/sys/class/net/"@ + TUNNEL_NAME@, r),
{
    let p = interface_path();
    probe(p.as_str())
}

} // verus!
