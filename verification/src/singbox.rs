//! sing-box controller logic: which configs are run, the TUN inbound forced
//! into them so that every application's traffic is captured, and the
//! decisions around starting the bundled engine.

use vstd::prelude::*;
use crate::vpn::{exists_answer, probe, same_outcome};
use crate::json::{JsonView, member_views, lemma_object_view, json_view, json_of_text, json_render, parse_json, render_json, Json, get, get_member, members, without_key, remove_member, lemma_lookup_without, lemma_lookup_push, lemma_without_key_idempotent};

verus! {

/// `j` is the string `s`.
pub open spec fn is_str(j: Json, s: Seq<char>) -> bool {
    j matches Json::Str(x) && x@ == s
}

/// `j` is `true`.
pub open spec fn is_true(j: Json) -> bool {
    j matches Json::Bool(b) && b
}

/// The inbound object: a system-wide TUN device tagged `chatte-tun` at
/// `172.19.0.1/30`, with automatic and strict routing on the mixed stack.
pub open spec fn is_tun_inbound(j: Json) -> bool {
    match j {
        Json::Object(f) => {
            &&& f@.len() == 6
            &&& f@[0].0@ == "type"@ && is_str(f@[0].1, "tun"@)
            &&& f@[1].0@ == "tag"@ && is_str(f@[1].1, "chatte-tun"@)
            &&& f@[2].0@ == "address"@ && (f@[2].1 matches Json::Array(a) && a@.len() == 1 && is_str(
                a@[0],
                "172.19.0.1/30"@,
            ))
            &&& f@[3].0@ == "auto_route"@ && is_true(f@[3].1)
            &&& f@[4].0@ == "strict_route"@ && is_true(f@[4].1)
            &&& f@[5].0@ == "stack"@ && is_str(f@[5].1, "mixed"@)
        },
        _ => false,
    }
}

/// The `inbounds` array that is forced into every config: the TUN inbound
/// alone.
pub open spec fn is_tun_inbounds(j: Json) -> bool {
    j matches Json::Array(a) && a@.len() == 1 && is_tun_inbound(a@[0])
}

/// A sing-box config carries at least one outbound.
pub open spec fn has_outbounds(doc: Json) -> bool {
    get(doc, "outbounds"@) matches Some(Json::Array(a)) && a@.len() > 0
}

/// `r` is `doc` with its `inbounds` replaced by the TUN inbound: the other
/// members in their order, then `inbounds`.
pub open spec fn tun_injected(doc: Json, r: Json) -> bool {
    &&& r is Object
    &&& members(r).len() > 0
    &&& members(r).drop_last() == without_key(members(doc), "inbounds"@)
    &&& members(r).last().0@ == "inbounds"@
    &&& is_tun_inbounds(members(r).last().1)
}

fn str_member(key: &str, value: &str) -> (r: (String, Json))
    ensures
        r.0@ == key@,
        is_str(r.1, value@),
{
    (String::from_str(key), Json::Str(String::from_str(value)))
}

/// The `inbounds` array forced into every config.
pub fn tun_inbounds() -> (r: Json)
    ensures
        is_tun_inbounds(r),
{
    let mut address: Vec<Json> = Vec::new();
    address.push(Json::Str(String::from_str("172.19.0.1/30")));
    let mut f: Vec<(String, Json)> = Vec::new();
    f.push(str_member("type", "tun"));
    f.push(str_member("tag", "chatte-tun"));
    f.push((String::from_str("address"), Json::Array(address)));
    f.push((String::from_str("auto_route"), Json::Bool(true)));
    f.push((String::from_str("strict_route"), Json::Bool(true)));
    f.push(str_member("stack", "mixed"));
    let mut a: Vec<Json> = Vec::new();
    a.push(Json::Object(f));
    Json::Array(a)
}

/// Check that a parsed document is a sing-box config with at least one
/// outbound.
pub fn validate_document(doc: &Json) -> (r: Result<(), String>)
    ensures
        r is Ok <==> has_outbounds(*doc),
        r matches Err(e) ==> e@ == "sing-box config has no outbounds"@,
{
    if let Json::Object(f) = doc {
        if let Some(Json::Array(a)) = get_member(f, "outbounds") {
            if a.len() > 0 {
                return Ok(());
            }
        }
    }
    Err(String::from_str("sing-box config has no outbounds"))
}

/// Check a config from the (semi-trusted) backend before it is run: it must
/// be JSON with at least one outbound.
pub fn validate_config(config: &str) -> (r: Result<(), String>)
    ensures
        r is Ok <==> (json_of_text(config@) matches Ok(d) && has_outbounds(d)),
        json_of_text(config@) is Err ==> (r matches Err(e) && e@ == "did not return a sing-box config"@),
        json_of_text(config@) matches Ok(d) && !has_outbounds(d) ==> (r matches Err(e) && e@
            == "sing-box config has no outbounds"@),
{
    match parse_json(config) {
        Err(_) => Err(String::from_str("did not return a sing-box config")),
        Ok(d) => validate_document(&d),
    }
}

/// Force the system-wide TUN inbound into a document, whatever inbounds it
/// shipped with; its other members (outbounds, route, dns) are kept. A
/// `null` document is taken as an empty object; other non-objects are not
/// accepted.
pub fn inject_tun_document(doc: Json) -> (r: Json)
    requires
        doc is Object || doc is Null,
    ensures
        tun_injected(doc, r),
{
    let fields = match doc {
        Json::Object(f) => f,
        _ => Vec::new(),
    };
    let mut kept = remove_member(fields, "inbounds");
    let ghost before = kept@;
    kept.push((String::from_str("inbounds"), tun_inbounds()));
    assert(kept@.drop_last() =~= before);
    Json::Object(kept)
}

/// The value of the TUN inbound array.
pub open spec fn tun_view() -> JsonView {
    JsonView::Array(
        seq![
            JsonView::Object(
                seq![
                    ("type"@, JsonView::Str("tun"@)),
                    ("tag"@, JsonView::Str("chatte-tun"@)),
                    ("address"@, JsonView::Array(seq![JsonView::Str("172.19.0.1/30"@)])),
                    ("auto_route"@, JsonView::Bool(true)),
                    ("strict_route"@, JsonView::Bool(true)),
                    ("stack"@, JsonView::Str("mixed"@)),
                ],
            ),
        ],
    )
}

/// The value of `doc` with its `inbounds` replaced by the TUN inbound: its
/// other members in their order, then `inbounds`.
pub open spec fn injected_view(doc: Json) -> JsonView {
    JsonView::Object(member_views(without_key(members(doc), "inbounds"@)).push(("inbounds"@, tun_view())))
}

/// Every TUN inbound array has the value [`tun_view`].
pub proof fn lemma_tun_view(t: Json)
    requires
        is_tun_inbounds(t),
    ensures
        json_view(t) == tun_view(),
{
    let a = t->Array_0@;
    let f = a[0]->Object_0@;
    let ad = f[2].1->Array_0@;
    assert(json_view(ad[0]) == JsonView::Str("172.19.0.1/30"@));
    let adv = json_view(f[2].1)->Array_0;
    assert(adv.len() == 1);
    assert(adv[0] == json_view(ad[0]));
    assert(adv =~= seq![JsonView::Str("172.19.0.1/30"@)]);
    assert(json_view(f[0].1) == JsonView::Str("tun"@));
    assert(json_view(f[1].1) == JsonView::Str("chatte-tun"@));
    assert(json_view(f[3].1) == JsonView::Bool(true));
    assert(json_view(f[4].1) == JsonView::Bool(true));
    assert(json_view(f[5].1) == JsonView::Str("mixed"@));
    lemma_object_view(a[0]->Object_0);
    let fv = json_view(a[0])->Object_0;
    assert(fv == member_views(f));
    assert(fv =~= tun_view()->Array_0[0]->Object_0);
    assert(json_view(t)->Array_0 =~= tun_view()->Array_0);
}

/// A document with the TUN inbound forced in has the value [`injected_view`].
pub proof fn lemma_injected_view(doc: Json, r: Json)
    requires
        tun_injected(doc, r),
    ensures
        json_view(r) == injected_view(doc),
{
    let g = r->Object_0;
    lemma_object_view(g);
    let m = members(r);
    lemma_tun_view(m.last().1);
    assert(member_views(m) =~= member_views(m.drop_last()).push(("inbounds"@, tun_view())));
}

/// Force the system-wide TUN inbound into the config text `config`: parse
/// it, inject into the document, render it again. Text that is not JSON
/// gives the parser's error; a document that is neither an object nor
/// `null` is not accepted.
pub fn inject_tun_inbound(config: &str) -> (r: Result<String, String>)
    requires
        json_of_text(config@) matches Ok(d) ==> (d is Object || d is Null),
    ensures
        json_of_text(config@) matches Err(m) ==> (r matches Err(e) && e@ == m),
        json_of_text(config@) matches Ok(d) ==> same_outcome(r, json_render(injected_view(d))),
{
    match parse_json(config) {
        Err(e) => Err(e),
        Ok(d) => {
            let ghost d0 = d;
            let out = inject_tun_document(d);
            let r = render_json(&out);
            proof {
                lemma_injected_view(d0, out);
            }
            r
        },
    }
}

/// The config that sing-box is run with: `config` checked, then with the TUN
/// inbound forced in and rendered again.
pub fn prepare_config(config: &str) -> (r: Result<String, String>)
    ensures
        json_of_text(config@) is Err ==> (r matches Err(e) && e@ == "did not return a sing-box config"@),
        json_of_text(config@) matches Ok(d) && !has_outbounds(d) ==> (r matches Err(e) && e@
            == "sing-box config has no outbounds"@),
        json_of_text(config@) matches Ok(d) ==> (has_outbounds(d) ==> same_outcome(r, json_render(injected_view(d)))),
{
    validate_config(config)?;
    inject_tun_inbound(config)
}

/// After the injection, `inbounds` is the TUN inbound.
pub proof fn law_injection_sets_inbounds(doc: Json, r: Json)
    requires
        tun_injected(doc, r),
    ensures
        get(r, "inbounds"@) matches Some(t) && is_tun_inbounds(t),
{
    let f = members(r);
    assert(f =~= f.drop_last().push(f.last()));
    lemma_lookup_without(members(doc), "inbounds"@, "inbounds"@);
    lemma_lookup_push(f.drop_last(), f.last(), "inbounds"@);
}

/// The injection leaves every member other than `inbounds` as it was.
pub proof fn law_injection_keeps_members(doc: Json, r: Json, key: Seq<char>)
    requires
        doc is Object || doc is Null,
        tun_injected(doc, r),
        key != "inbounds"@,
    ensures
        get(r, key) == get(doc, key),
{
    let f = members(r);
    assert(f =~= f.drop_last().push(f.last()));
    lemma_lookup_without(members(doc), "inbounds"@, key);
    lemma_lookup_push(f.drop_last(), f.last(), key);
}

/// The injection keeps a config valid and an invalid one invalid.
pub proof fn law_injection_keeps_validity(doc: Json, r: Json)
    requires
        doc is Object || doc is Null,
        tun_injected(doc, r),
    ensures
        has_outbounds(r) == has_outbounds(doc),
{
    reveal_strlit("outbounds");
    reveal_strlit("inbounds");
    assert("outbounds"@.len() != "inbounds"@.len());
    law_injection_keeps_members(doc, r, "outbounds"@);
}

/// All TUN inbound arrays are the same document.
proof fn lemma_tun_inbounds_view(t1: Json, t2: Json)
    requires
        is_tun_inbounds(t1),
        is_tun_inbounds(t2),
    ensures
        json_view(t1) == json_view(t2),
{
    let a1 = t1->Array_0@;
    let a2 = t2->Array_0@;
    let f1 = a1[0]->Object_0@;
    let f2 = a2[0]->Object_0@;
    let ad1 = f1[2].1->Array_0@;
    let ad2 = f2[2].1->Array_0@;
    assert(json_view(ad1[0]) == json_view(ad2[0]));
    assert(json_view(f1[2].1) == json_view(f2[2].1)) by {
        assert(json_view(f1[2].1)->Array_0 =~= json_view(f2[2].1)->Array_0);
    }
    assert forall|i: int| 0 <= i < 6 implies #[trigger] f1[i].0@ == f2[i].0@ && json_view(f1[i].1)
        == json_view(f2[i].1) by {}
    assert(json_view(a1[0]) == json_view(a2[0])) by {
        assert(json_view(a1[0])->Object_0 =~= json_view(a2[0])->Object_0);
    }
    assert(json_view(t1)->Array_0 =~= json_view(t2)->Array_0);
}

/// Injecting twice gives what injecting once gives: the same document, its
/// members in the same order and the TUN inbound last.
pub proof fn law_injection_idempotent(doc: Json, r1: Json, r2: Json)
    requires
        tun_injected(doc, r1),
        tun_injected(r1, r2),
    ensures
        members(r2).drop_last() == members(r1).drop_last(),
        members(r2).len() == members(r1).len(),
        json_view(r2) == json_view(r1),
{
    let f = members(r1);
    let g = members(r2);
    assert(f =~= f.drop_last().push(f.last()));
    lemma_without_key_idempotent(f.drop_last(), "inbounds"@, f.last());
    lemma_without_key_idempotent(members(doc), "inbounds"@, f.last());
    lemma_tun_inbounds_view(f.last().1, g.last().1);
    assert forall|i: int| 0 <= i < g.len() implies #[trigger] g[i].0@ == f[i].0@ && json_view(g[i].1)
        == json_view(f[i].1) by {
        if i < g.len() - 1 {
            assert(g[i] == g.drop_last()[i]);
            assert(f[i] == f.drop_last()[i]);
        }
    }
    assert(json_view(r2)->Object_0 =~= json_view(r1)->Object_0);
}

/// Whether the extracted copy of a bundled file must be (re)written: when
/// there is none (`existing_len` is none) or its size differs from the
/// bundled bytes (a cheap version check).
pub fn is_stale(existing_len: Option<u64>, bundled_len: usize) -> (r: bool)
    ensures
        r == match existing_len {
            Some(n) => n != bundled_len,
            None => true,
        },
{
    match existing_len {
        Some(n) => n != bundled_len as u64,
        None => true,
    }
}

/// Which sing-box executable to run, given the copy beside the application
/// (when its place is known) and whether that copy exists: the copy when it
/// exists, else none, meaning the bare name `sing-box.exe`, found on `PATH`.
pub fn choose_singbox_exe<P>(beside_app: Option<P>, beside_exists: bool) -> (r: Option<P>)
    ensures
        r == (if beside_exists && beside_app is Some { beside_app } else { None::<P> }),
{
    match beside_app {
        Some(p) => if beside_exists {
            Some(p)
        } else {
            None
        },
        None => None,
    }
}

/// The sing-box executable to run: `beside_app` (the `sing-box.exe` next to
/// the application, when its place is known) if the machine says it exists,
/// else the bare name, to be found on `PATH`.
pub fn singbox_exe(beside_app: Option<String>) -> (r: String)
    ensures
        exists|found: bool|
            (beside_app matches Some(p) ==> exists_answer(p@, found)) && runs(
                #[trigger] choose_singbox_exe_spec(beside_app, found),
                r,
            ),
{
    let found = match &beside_app {
        Some(p) => probe(p.as_str()),
        None => false,
    };
    let ghost chosen = choose_singbox_exe_spec(beside_app, found);
    let r = match choose_singbox_exe(beside_app, found) {
        Some(p) => p,
        None => String::from_str("sing-box.exe"),
    };
    assert(runs(chosen, r));
    r
}

/// `exe` is what is run for the choice `chosen`: the chosen copy, or the
/// bare name when none was chosen.
pub open spec fn runs(chosen: Option<String>, exe: String) -> bool {
    match chosen {
        Some(p) => exe == p,
        None => exe@ == "sing-box.exe"@,
    }
}

/// The choice [`choose_singbox_exe`] makes.
pub open spec fn choose_singbox_exe_spec(beside_app: Option<String>, beside_exists: bool) -> Option<String> {
    if beside_exists && beside_app is Some { beside_app } else { None }
}

/// The copy beside the application is run whenever the file system says it
/// exists; the bare name is run only when it does not, or when there is no
/// such copy.
pub proof fn law_beside_copy_wins(beside_app: Option<String>, found: bool, exe: String)
    requires
        runs(choose_singbox_exe_spec(beside_app, found), exe),
    ensures
        beside_app matches Some(p) ==> (found ==> exe == p),
        !(beside_app is Some && found) ==> exe@ == "sing-box.exe"@,
{
}

/// What starting sing-box comes to, given whether it is still running a
/// moment after it was started: it exits fast on a bad config or without
/// administrator rights, and that is reported instead of a phantom
/// connection.
pub fn startup_outcome(still_running: bool) -> (r: Result<(), String>)
    ensures
        still_running <==> r is Ok,
        r matches Err(e) ==> e@ == "sing-box exited immediately — bad config, or the app isn't running as Administrator"@,
{
    if still_running {
        Ok(())
    } else {
        Err(exited_immediately_message())
    }
}

/// The message shown when sing-box could not be started.
pub fn spawn_failure_message(cause: &str) -> (r: String)
    ensures
        r@ == "failed to start sing-box ("@ + cause@
            + "). Put sing-box.exe next to the app or on PATH — https://sing-box.sagernet.org"@,
{
    String::from_str("failed to start sing-box (").concat(cause).concat(
        "). Put sing-box.exe next to the app or on PATH — https://sing-box.sagernet.org",
    )
}

/// The message shown when sing-box quit right after it was started.
pub fn exited_immediately_message() -> (r: String)
    ensures
        r@ == "sing-box exited immediately — bad config, or the app isn't running as Administrator"@,
{
    String::from_str("sing-box exited immediately — bad config, or the app isn't running as Administrator")
}

} // verus!
