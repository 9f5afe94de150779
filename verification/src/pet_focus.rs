//! The pet of Codex Desktop, an avatar overlay, takes the focus away from other
//! windows. A script in the page of the overlay keeps it from doing so; other
//! pages are left alone.

use vstd::prelude::*;
use vstd::string::*;

use crate::json;
use crate::json::Json;
use crate::text;

verus! {

/// The name of the setting that switches the script on and off.
pub const SETTING_SUPPRESS_PET_FOCUS_STEAL: &'static str = "suppressCodexPetFocusSteal";

/// Whether the settings leave the script on. It is on unless they say otherwise.
pub open spec fn leaves_on(settings: Json) -> bool {
    match json::bool_of(json::field(settings, SETTING_SUPPRESS_PET_FOCUS_STEAL@)) {
        Some(on) => on,
        None => true,
    }
}

/// Whether the script is on, by the settings.
pub fn suppress_pet_focus_steal_enabled(settings: &serde_json::Value) -> (enabled: bool)
    ensures
        enabled == leaves_on(json::json_of(*settings)),
        enabled <==> json::field(json::json_of(*settings), "suppressCodexPetFocusSteal"@) != Some(
            Json::Bool(false),
        ),
{
    match json::get(settings, SETTING_SUPPRESS_PET_FOCUS_STEAL) {
        Some(entry) => match entry.as_bool() {
            Some(on) => on,
            None => true,
        },
        None => true,
    }
}

/// Whether the registry leaves the script on: also where it could not be loaded,
/// or has no settings.
pub open spec fn registry_leaves_on(registry: Option<Json>) -> bool {
    match json::field_of(registry, "settings"@) {
        Some(settings) => leaves_on(settings),
        None => true,
    }
}

/// Whether the script is on, by the registry, where it could be loaded.
pub fn suppress_pet_focus_steal_enabled_from_registry(
    registry: Option<&serde_json::Value>,
) -> (enabled: bool)
    ensures
        enabled == registry_leaves_on(json::json_of_option(registry)),
{
    match registry {
        Some(cfg) => match json::get(cfg, "settings") {
            Some(settings) => suppress_pet_focus_steal_enabled(settings),
            None => true,
        },
        None => true,
    }
}

/// Whether a debugger target is the page of the overlay.
pub open spec fn is_overlay_page(page: Json) -> bool {
    &&& json::text_of(json::field(page, "type"@)) == Some("page"@)
    &&& match json::text_of(json::field(page, "url"@)) {
        Some(url) => text::has_part(url, "avatar-overlay"@),
        None => false,
    }
}

/// The address of the debugger of a page.
pub open spec fn debugger_url(page: Json) -> Option<Seq<char>> {
    json::text_of(json::field(page, "webSocketDebuggerUrl"@))
}

/// The addresses of the debuggers of the overlay's pages, in the order of the
/// pages.
pub open spec fn overlay_urls(pages: Seq<Json>) -> Seq<Seq<char>>
    decreases pages.len(),
{
    if pages.len() == 0 {
        Seq::empty()
    } else {
        let before = overlay_urls(pages.drop_last());
        match debugger_url(pages.last()) {
            Some(url) => if is_overlay_page(pages.last()) {
                before.push(url)
            } else {
                before
            },
            None => before,
        }
    }
}

/// The characters of each string of a list.
pub open spec fn texts_of(strings: Seq<String>) -> Seq<Seq<char>> {
    Seq::new(strings.len(), |i: int| strings[i]@)
}

fn page_url(page: &serde_json::Value) -> (url: Option<String>)
    ensures
        text::string_chars(url) == (if is_overlay_page(json::json_of(*page)) {
            debugger_url(json::json_of(*page))
        } else {
            None
        }),
{
    let url = entry_or_empty(page, "url");
    let ptype = entry_or_empty(page, "type");
    proof {
        reveal_strlit("");
        reveal_strlit("page");
        reveal_strlit("avatar-overlay");
        assert(!text::has_part(""@, "avatar-overlay"@));
        assert(""@.len() != "page"@.len());
    }
    if text::same(ptype, "page") && text::contains(url, "avatar-overlay") {
        match json::get(page, "webSocketDebuggerUrl") {
            Some(entry) => match entry.as_str() {
                Some(s) => Some(s.to_owned()),
                None => None,
            },
            None => None,
        }
    } else {
        None
    }
}

fn entry_or_empty<'a>(page: &'a serde_json::Value, key: &str) -> (found: &'a str)
    ensures
        found@ == (match json::text_of(json::field(json::json_of(*page), key@)) {
            Some(s) => s,
            None => ""@,
        }),
{
    match json::get(page, key) {
        Some(entry) => match entry.as_str() {
            Some(s) => s,
            None => "",
        },
        None => "",
    }
}

/// The addresses of the debuggers of the overlay's pages.
pub fn avatar_overlay_ws_urls(pages: &[serde_json::Value]) -> (urls: Vec<String>)
    ensures
        texts_of(urls@) == overlay_urls(json::json_of_all(pages@)),
{
    let ghost views = json::json_of_all(pages@);
    let mut urls: Vec<String> = Vec::new();
    assert(views.take(0) =~= Seq::empty());
    for i in 0..pages.len()
        invariant
            views == json::json_of_all(pages@),
            texts_of(urls@) == overlay_urls(views.take(i as int)),
    {
        assert(views.take(i + 1).drop_last() =~= views.take(i as int));
        let ghost before = urls@;
        if let Some(url) = page_url(&pages[i]) {
            urls.push(url);
            assert(texts_of(urls@) =~= texts_of(before).push(url@));
        }
    }
    assert(views.take(views.len() as int) =~= views);
    urls
}

/// The pages that the script goes to, how many of them have had their turn, and in
/// how many the script stands.
pub struct PatchRun {
    pub targets: Vec<String>,
    pub attempted: usize,
    pub applied: usize,
}

/// How far the application of the script has come.
pub enum PatchPhase {
    /// The pages of the overlay are looked for.
    Locating,
    /// The script goes to one page after the other.
    Injecting(PatchRun),
    /// It is over: in so many pages the script stands, or no page could be looked
    /// for.
    Done(Result<usize, String>),
}

/// The run once the page whose turn it was has had it.
pub open spec fn after_turn(run: PatchRun, injected: bool) -> PatchPhase {
    let applied = (run.applied + if injected {
        1int
    } else {
        0int
    }) as usize;
    if run.attempted + 1 == run.targets@.len() {
        PatchPhase::Done(Ok(applied))
    } else {
        PatchPhase::Injecting(
            PatchRun { targets: run.targets, attempted: (run.attempted + 1) as usize, applied },
        )
    }
}

impl PatchRun {
    /// Whether a page is left whose turn it is, and the counts can be those of the
    /// pages before it.
    pub open spec fn wf(&self) -> bool {
        self.applied <= self.attempted < self.targets@.len()
    }

    /// The page whose turn it is.
    pub fn current(&self) -> (target: &str)
        requires
            self.wf(),
        ensures
            target@ == self.targets@[self.attempted as int]@,
    {
        self.targets[self.attempted].as_str()
    }

    /// Takes note whether the script now stands in the page whose turn it was. A
    /// page in which it does not is passed over.
    pub fn record(self, injected: bool) -> (phase: PatchPhase)
        requires
            self.wf(),
        ensures
            phase == after_turn(self, injected),
            phase matches PatchPhase::Injecting(run) ==> run.wf(),
    {
        assert(self.attempted < self.targets.len());
        let attempted: usize = self.attempted + 1;
        let applied: usize = if injected {
            self.applied + 1
        } else {
            self.applied
        };
        if attempted == self.targets.len() {
            PatchPhase::Done(Ok(applied))
        } else {
            PatchPhase::Injecting(PatchRun { targets: self.targets, attempted, applied })
        }
    }
}

/// How the application of the script starts, by the registry.
pub open spec fn first_phase(registry: Option<Json>) -> PatchPhase {
    if registry_leaves_on(registry) {
        PatchPhase::Locating
    } else {
        PatchPhase::Done(Ok(0))
    }
}

/// Starts to apply the script, where the registry leaves it on.
pub fn apply_if_enabled(registry: Option<&serde_json::Value>) -> (phase: PatchPhase)
    ensures
        phase == (if registry_leaves_on(json::json_of_option(registry)) {
            PatchPhase::Locating
        } else {
            PatchPhase::Done(Ok(0))
        }),
        phase == first_phase(json::json_of_option(registry)),
{
    if suppress_pet_focus_steal_enabled_from_registry(registry) {
        PatchPhase::Locating
    } else {
        PatchPhase::Done(Ok(0))
    }
}

/// How the application of the script goes on once pages were looked for.
pub open spec fn phase_with(located: Result<Vec<String>, String>) -> PatchPhase {
    match located {
        Ok(targets) => if targets@.len() == 0 {
            PatchPhase::Done(Ok(0))
        } else {
            PatchPhase::Injecting(PatchRun { targets, attempted: 0, applied: 0 })
        },
        Err(e) => PatchPhase::Done(Err(e)),
    }
}

/// Goes on with the pages that were found, if they could be looked for.
pub fn apply_patch(located: Result<Vec<String>, String>) -> (phase: PatchPhase)
    ensures
        phase == (match located {
            Ok(targets) => if targets@.len() == 0 {
                PatchPhase::Done(Ok(0))
            } else {
                PatchPhase::Injecting(PatchRun { targets, attempted: 0, applied: 0 })
            },
            Err(e) => PatchPhase::Done(Err(e)),
        }),
        phase == phase_with(located),
        phase matches PatchPhase::Injecting(run) ==> run.wf(),
{
    match located {
        Ok(targets) => if targets.is_empty() {
            PatchPhase::Done(Ok(0))
        } else {
            PatchPhase::Injecting(PatchRun { targets, attempted: 0, applied: 0 })
        },
        Err(e) => PatchPhase::Done(Err(e)),
    }
}

/// How far the application has come once the next pages had their turns.
pub open spec fn after_turns(phase: PatchPhase, injected: Seq<bool>) -> PatchPhase
    decreases injected.len(),
{
    if injected.len() == 0 {
        phase
    } else {
        match phase {
            PatchPhase::Injecting(run) => after_turns(
                after_turn(run, injected[0]),
                injected.drop_first(),
            ),
            _ => phase,
        }
    }
}

/// How many of the turns went well.
pub open spec fn successes(injected: Seq<bool>) -> nat
    decreases injected.len(),
{
    if injected.len() == 0 {
        0
    } else {
        successes(injected.drop_first()) + if injected[0] {
            1nat
        } else {
            0nat
        }
    }
}

/// Every page gets one turn, whatever becomes of the others, and the count at the
/// end is that of the turns that went well.
pub proof fn law_every_page_gets_a_turn(run: PatchRun, injected: Seq<bool>)
    requires
        run.wf(),
        run.targets@.len() <= usize::MAX,
        injected.len() == run.targets@.len() - run.attempted,
    ensures
        after_turns(PatchPhase::Injecting(run), injected) == PatchPhase::Done(
            Ok((run.applied + successes(injected)) as usize),
        ),
        run.applied + successes(injected) <= run.targets@.len(),
    decreases injected.len(),
{
    reveal_with_fuel(after_turns, 2);
    reveal_with_fuel(successes, 2);
    let rest = injected.drop_first();
    match after_turn(run, injected[0]) {
        PatchPhase::Injecting(next) => {
            law_every_page_gets_a_turn(next, rest);
        },
        _ => {
            assert(rest.len() == 0);
        },
    }
}

/// The script.
pub fn anti_focus_script() -> (script: &'static str)
    ensures
        script@ == ANTI_FOCUS_SCRIPT@,
{
    ANTI_FOCUS_SCRIPT
}

/// The script that keeps the overlay from taking the focus.
pub const ANTI_FOCUS_SCRIPT: &'static str = r#"
(function() {
  if (window.__codexAppTransferPetFocusPatchV1) return "already-patched";
  Object.defineProperty(window, "__codexAppTransferPetFocusPatchV1", {
    value: true,
    configurable: false,
    enumerable: false,
    writable: false
  });

  var BLOCK_RE = /focus|activate|show.*window|window.*show|raise|front/i;
  var ALLOW_RE = /devtools|log|telemetry|metrics|resize|position|bounds|move|drag|mouse|pointer/i;
  function shouldBlock(channel) {
    var text = String(channel || "");
    return BLOCK_RE.test(text) && !ALLOW_RE.test(text);
  }
  function blockResult(channel) {
    try { console.debug("[codex-app-transfer] blocked pet focus IPC:", String(channel)); } catch (_) {}
    return undefined;
  }

  try { window.focus = function() {}; } catch (_) {}
  try { window.blur = function() {}; } catch (_) {}

  function patchIpc(ipc) {
    if (!ipc || ipc.__codexAppTransferPetFocusPatchV1) return;
    try {
      ["send", "sendSync", "invoke"].forEach(function(name) {
        var original = ipc[name];
        if (typeof original !== "function") return;
        ipc[name] = function(channel) {
          if (shouldBlock(channel)) return blockResult(channel);
          return original.apply(this, arguments);
        };
      });
      Object.defineProperty(ipc, "__codexAppTransferPetFocusPatchV1", {
        value: true,
        configurable: false
      });
    } catch (_) {}
  }

  try {
    if (typeof require === "function") {
      var electron = require("electron");
      patchIpc(electron && electron.ipcRenderer);
    }
  } catch (_) {}

  ["electron", "api", "codex", "desktop", "bridge"].forEach(function(key) {
    try {
      var bridge = window[key];
      if (!bridge || bridge.__codexAppTransferPetFocusPatchV1) return;
      ["send", "sendSync", "invoke", "postMessage", "emit"].forEach(function(name) {
        var original = bridge[name];
        if (typeof original !== "function") return;
        bridge[name] = function(channel) {
          if (shouldBlock(channel)) return blockResult(key + "." + channel);
          return original.apply(this, arguments);
        };
      });
      Object.defineProperty(bridge, "__codexAppTransferPetFocusPatchV1", {
        value: true,
        configurable: false
      });
    } catch (_) {}
  });

  return "patched";
})();
"#;

/// The script is off only where the registry holds settings that switch it off.
pub proof fn law_on_unless_switched_off(registry: Option<Json>)
    ensures
        !registry_leaves_on(registry) <==> json::bool_of(
            json::field_of(
                json::field_of(registry, "settings"@),
                SETTING_SUPPRESS_PET_FOCUS_STEAL@,
            ),
        ) == Some(false),
{
}

/// The pages of two lists are found as they are in each.
pub proof fn law_pages_are_found_in_order(first: Seq<Json>, second: Seq<Json>)
    ensures
        overlay_urls(first + second) == overlay_urls(first) + overlay_urls(second),
    decreases second.len(),
{
    if second.len() == 0 {
        assert(first + second =~= first);
        assert(overlay_urls(first) + overlay_urls(second) =~= overlay_urls(first));
    } else {
        law_pages_are_found_in_order(first, second.drop_last());
        assert((first + second).drop_last() =~= first + second.drop_last());
        assert((first + second).last() == second.last());
        assert(overlay_urls(first + second) =~= overlay_urls(first) + overlay_urls(second));
    }
}

/// Exactly the pages of the overlay are found, and no other page is touched.
pub proof fn law_only_the_overlay_is_found(pages: Seq<Json>, url: Seq<char>)
    ensures
        overlay_urls(pages).contains(url) <==> exists|i: int|
            0 <= i < pages.len() && is_overlay_page(#[trigger] pages[i]) && debugger_url(pages[i])
                == Some(url),
    decreases pages.len(),
{
    if pages.len() > 0 {
        let before = pages.drop_last();
        law_only_the_overlay_is_found(before, url);
        let found = overlay_urls(before);
        if overlay_urls(pages).contains(url) {
            let k = choose|k: int|
                0 <= k < overlay_urls(pages).len() && overlay_urls(pages)[k] == url;
            if k < found.len() {
                assert(found[k] == url);
                let i = choose|i: int|
                    0 <= i < before.len() && is_overlay_page(#[trigger] before[i]) && debugger_url(
                        before[i],
                    ) == Some(url);
                assert(pages[i] == before[i]);
            } else {
                assert(is_overlay_page(pages[pages.len() - 1]));
            }
        }
        if exists|i: int|
            0 <= i < pages.len() && is_overlay_page(#[trigger] pages[i]) && debugger_url(pages[i])
                == Some(url) {
            let i = choose|i: int|
                0 <= i < pages.len() && is_overlay_page(#[trigger] pages[i]) && debugger_url(
                    pages[i],
                ) == Some(url);
            if i < before.len() {
                assert(before[i] == pages[i]);
                let k = choose|k: int| 0 <= k < found.len() && found[k] == url;
                assert(overlay_urls(pages)[k] == url);
            } else {
                assert(overlay_urls(pages)[found.len() as int] == url);
            }
        }
    }
}

/// The script is off exactly where the registry holds `settings` whose entry
/// `suppressCodexPetFocusSteal` is false, and where it is off nothing is done.
pub proof fn law_off_only_by_the_setting(registry: Option<Json>, settings: Json)
    ensures
        leaves_on(settings) <==> json::field(settings, "suppressCodexPetFocusSteal"@) != Some(
            Json::Bool(false),
        ),
        json::field_of(registry, "settings"@) is None ==> registry_leaves_on(registry),
        json::field_of(registry, "settings"@) == Some(settings) ==> (registry_leaves_on(registry)
            <==> json::field(settings, "suppressCodexPetFocusSteal"@) != Some(Json::Bool(false))),
        json::field_of(json::field_of(registry, "settings"@), "suppressCodexPetFocusSteal"@)
            == Some(Json::Bool(false)) ==> first_phase(registry) == PatchPhase::Done(Ok(0)),
        json::field_of(json::field_of(registry, "settings"@), "suppressCodexPetFocusSteal"@)
            != Some(Json::Bool(false)) ==> first_phase(registry) == PatchPhase::Locating,
{
}

/// What a page yields, whatever other entries it has: the string under its
/// `webSocketDebuggerUrl` where its `type` is `page` and its `url` has
/// `avatar-overlay` in it, and nothing elsewhere.
pub proof fn law_overlay_page_yields_its_debugger(
    page: Json,
    target_type: Option<Json>,
    url: Option<Json>,
    address: Option<Json>,
)
    requires
        json::field(page, "type"@) == target_type,
        json::field(page, "url"@) == url,
        json::field(page, "webSocketDebuggerUrl"@) == address,
    ensures
        ({
            let is_overlay = target_type == Some(Json::Text("page"@)) && (url matches Some(
                Json::Text(u),
            ) && text::has_part(u, "avatar-overlay"@));
            &&& is_overlay ==> (address matches Some(Json::Text(a)) ==> overlay_urls(seq![page])
                == seq![a])
            &&& !is_overlay || !(address matches Some(Json::Text(_))) ==> overlay_urls(seq![page])
                == Seq::<Seq<char>>::empty()
        }),
{
    let pages = seq![page];
    assert(pages.drop_last() =~= Seq::empty());
    assert(overlay_urls(pages.drop_last()) =~= Seq::empty());
    assert(pages.last() == page);
    if let Some(Json::Text(a)) = address {
        assert(Seq::<Seq<char>>::empty().push(a) =~= seq![a]);
    }
}

/// Every address that is found is the string that a page of the overlay holds under
/// `webSocketDebuggerUrl`, and every such page's is found.
pub proof fn law_found_addresses_are_those_of_overlay_pages(pages: Seq<Json>, address: Seq<char>)
    ensures
        overlay_urls(pages).contains(address) <==> exists|i: int|
            {
                &&& 0 <= i < pages.len()
                &&& json::field(#[trigger] pages[i], "type"@) == Some(Json::Text("page"@))
                &&& json::field(pages[i], "url"@) matches Some(Json::Text(url))
                    && text::has_part(url, "avatar-overlay"@)
                &&& json::field(pages[i], "webSocketDebuggerUrl"@) == Some(Json::Text(address))
            },
        overlay_urls(pages).len() <= pages.len(),
    decreases pages.len(),
{
    law_only_the_overlay_is_found(pages, address);
    if pages.len() > 0 {
        law_found_addresses_are_those_of_overlay_pages(pages.drop_last(), address);
    }
    if overlay_urls(pages).contains(address) {
        let i = choose|i: int|
            0 <= i < pages.len() && is_overlay_page(#[trigger] pages[i]) && debugger_url(pages[i])
                == Some(address);
        assert(json::field(pages[i], "webSocketDebuggerUrl"@) == Some(Json::Text(address)));
    }
    if exists|i: int|
        {
            &&& 0 <= i < pages.len()
            &&& json::field(#[trigger] pages[i], "type"@) == Some(Json::Text("page"@))
            &&& json::field(pages[i], "url"@) matches Some(Json::Text(url)) && text::has_part(
                url,
                "avatar-overlay"@,
            )
            &&& json::field(pages[i], "webSocketDebuggerUrl"@) == Some(Json::Text(address))
        } {
        let i = choose|i: int|
            {
                &&& 0 <= i < pages.len()
                &&& json::field(#[trigger] pages[i], "type"@) == Some(Json::Text("page"@))
                &&& json::field(pages[i], "url"@) matches Some(Json::Text(url))
                    && text::has_part(url, "avatar-overlay"@)
                &&& json::field(pages[i], "webSocketDebuggerUrl"@) == Some(Json::Text(address))
            };
        assert(is_overlay_page(pages[i]));
        assert(debugger_url(pages[i]) == Some(address));
    }
}

/// A turn goes to the next page of the same list, counts where the script was put
/// into the page and not elsewhere, and the last one ends the run.
pub proof fn law_turn_goes_to_the_next_page(run: PatchRun, injected: bool)
    requires
        run.wf(),
        run.targets@.len() <= usize::MAX,
    ensures
        ({
            let count = if injected {
                run.applied + 1
            } else {
                run.applied + 0
            };
            match after_turn(run, injected) {
                PatchPhase::Injecting(next) => {
                    &&& next.targets == run.targets
                    &&& next.attempted == run.attempted + 1
                    &&& next.attempted < run.targets@.len()
                    &&& next.applied == count
                },
                PatchPhase::Done(Ok(applied)) => run.attempted + 1 == run.targets@.len() && applied
                    == count,
                _ => false,
            }
        }),
{
}

/// The turns so far do not change the pages, and are as many as were recorded.
proof fn lemma_turns(run: PatchRun, injected: Seq<bool>)
    requires
        run.wf(),
        run.targets@.len() <= usize::MAX,
        run.attempted + injected.len() < run.targets@.len(),
    ensures
        after_turns(PatchPhase::Injecting(run), injected) matches PatchPhase::Injecting(later)
            && later.targets == run.targets && later.attempted == run.attempted + injected.len()
            && later.wf(),
    decreases injected.len(),
{
    if injected.len() > 0 {
        if let PatchPhase::Injecting(next) = after_turn(run, injected[0]) {
            lemma_turns(next, injected.drop_first());
        }
    }
}

/// Every page that was found gets its turn, in the order of the list and whatever
/// became of those before it, and at the end it is known in how many the script
/// stands. Without pages it is over at once, and so where they could not be looked
/// for.
pub proof fn law_located_pages_get_their_turns(
    targets: Vec<String>,
    injected: Seq<bool>,
    turn: int,
    error: String,
)
    requires
        targets@.len() <= usize::MAX,
        injected.len() == targets@.len(),
    ensures
        after_turns(phase_with(Ok(targets)), injected) == PatchPhase::Done(
            Ok(successes(injected) as usize),
        ),
        0 <= turn < targets@.len() ==> (after_turns(
            phase_with(Ok(targets)),
            injected.take(turn),
        ) matches PatchPhase::Injecting(run) && run.targets@[run.attempted as int]
            == targets@[turn]),
        phase_with(Err(error)) == PatchPhase::Done(Err(error)),
{
    if targets@.len() > 0 {
        let run = PatchRun { targets, attempted: 0, applied: 0 };
        law_every_page_gets_a_turn(run, injected);
        if 0 <= turn < targets@.len() {
            lemma_turns(run, injected.take(turn));
        }
    }
}

/// How many turns went well, by counting them from the other end too.
pub proof fn law_successes_are_counted(injected: Seq<bool>, last: bool)
    ensures
        successes(Seq::<bool>::empty()) == 0,
        successes(injected.push(last)) == successes(injected) + (if last {
            1int
        } else {
            0int
        }),
    decreases injected.len(),
{
    reveal_with_fuel(successes, 2);
    if injected.len() > 0 {
        law_successes_are_counted(injected.drop_first(), last);
        assert(injected.push(last).drop_first() =~= injected.drop_first().push(last));
    } else {
        assert(injected.push(last).drop_first() =~= Seq::empty());
        assert(injected =~= Seq::empty());
    }
}

} // verus!
