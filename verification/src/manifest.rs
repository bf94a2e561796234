//! Finding the remote manifest: the configured URLs are tried in order and
//! the first manifest that arrives and parses wins; failing that, the cached
//! copy of the last one; failing that, the empty manifest.

use vstd::prelude::*;

use crate::launcher::{config_url, config_urls, RemoteConfig};
use crate::text::{list_entries, non_empty_setting, opt_str_view, strings_view};

verus! {

/// Where the search for the manifest stands.
#[derive(Debug)]
pub enum ManifestStage {
    /// Action: fetch and parse the manifest at the URL with this index.
    Fetch(usize),
    /// Action: write this manifest, just fetched, to the cache.
    Store(RemoteConfig),
    /// Action: read and parse the cached copy of the last manifest.
    ReadCache,
    /// Done: this manifest is in effect.
    Settled(RemoteConfig),
}

/// The search for the manifest before any fetch: the URLs to try and the
/// first stage.
pub struct ManifestSearch {
    pub urls: Vec<String>,
    pub stage: ManifestStage,
}

/// The empty manifest.
pub open spec fn empty_manifest(c: RemoteConfig) -> bool {
    c.launcher_url is None && c.launcher_sha256 is None
}

/// How the search starts for the manifest URL setting baked in at build
/// time: with no setting (missing or blank) the empty manifest is in effect
/// and nothing is fetched or read; otherwise its URLs are tried from the
/// first, or, when it lists none, the cached copy is read.
pub fn manifest_search(setting: Option<&str>) -> (r: ManifestSearch)
    ensures
        match non_empty_setting(opt_str_view(setting)) {
            None => strings_view(r.urls@) == Seq::<Seq<char>>::empty() && (r.stage matches ManifestStage::Settled(c)
                && empty_manifest(c)),
            Some(s) => strings_view(r.urls@) == list_entries(s) && (if r.urls@.len() == 0 {
                r.stage is ReadCache
            } else {
                r.stage == ManifestStage::Fetch(0)
            }),
        },
{
    match config_url(setting) {
        None => {
            let urls: Vec<String> = Vec::new();
            assert(strings_view(urls@) =~= Seq::<Seq<char>>::empty());
            ManifestSearch { urls, stage: ManifestStage::Settled(RemoteConfig::default()) }
        },
        Some(s) => {
            let urls = config_urls(s.as_str());
            let stage = if urls.len() == 0 {
                ManifestStage::ReadCache
            } else {
                ManifestStage::Fetch(0)
            };
            ManifestSearch { urls, stage }
        },
    }
}

/// The stage after `stage` once its action produced `outcome` (the manifest,
/// if one arrived and parsed), with `url_count` URLs to try. A fetched
/// manifest is written to the cache before it is settled on; writing the
/// cache has no outcome that matters.
pub open spec fn manifest_next(
    stage: ManifestStage,
    url_count: nat,
    outcome: Option<RemoteConfig>,
) -> ManifestStage {
    match stage {
        ManifestStage::Fetch(i) => match outcome {
            Some(c) => ManifestStage::Store(c),
            None => if i + 1 < url_count {
                ManifestStage::Fetch((i + 1) as usize)
            } else {
                ManifestStage::ReadCache
            },
        },
        ManifestStage::ReadCache => match outcome {
            Some(c) => ManifestStage::Settled(c),
            None => ManifestStage::Settled(RemoteConfig { launcher_url: None, launcher_sha256: None }),
        },
        ManifestStage::Store(c) => ManifestStage::Settled(c),
        ManifestStage::Settled(c) => ManifestStage::Settled(c),
    }
}

/// The stage after `stage` once its action produced `outcome`.
pub fn manifest_step(stage: ManifestStage, url_count: usize, outcome: Option<RemoteConfig>) -> (r:
    ManifestStage)
    ensures
        r == manifest_next(stage, url_count as nat, outcome),
{
    match stage {
        ManifestStage::Fetch(i) => match outcome {
            Some(c) => ManifestStage::Store(c),
            None => if i < url_count && url_count - i > 1 {
                ManifestStage::Fetch(i + 1)
            } else {
                ManifestStage::ReadCache
            },
        },
        ManifestStage::ReadCache => match outcome {
            Some(c) => ManifestStage::Settled(c),
            None => ManifestStage::Settled(RemoteConfig::default()),
        },
        ManifestStage::Store(c) => ManifestStage::Settled(c),
        ManifestStage::Settled(c) => ManifestStage::Settled(c),
    }
}

/// The stage reached from `stage` through `outcomes`, in order.
pub open spec fn manifest_run(
    stage: ManifestStage,
    url_count: nat,
    outcomes: Seq<Option<RemoteConfig>>,
) -> ManifestStage
    decreases outcomes.len(),
{
    if outcomes.len() == 0 {
        stage
    } else {
        manifest_run(manifest_next(stage, url_count, outcomes[0]), url_count, outcomes.drop_first())
    }
}

/// The first manifest among `fetched`, else `cached`, else the empty one.
pub open spec fn first_manifest(
    fetched: Seq<Option<RemoteConfig>>,
    cached: Option<RemoteConfig>,
) -> RemoteConfig
    decreases fetched.len(),
{
    if fetched.len() == 0 {
        match cached {
            Some(c) => c,
            None => RemoteConfig { launcher_url: None, launcher_sha256: None },
        }
    } else {
        match fetched[0] {
            Some(c) => c,
            None => first_manifest(fetched.drop_first(), cached),
        }
    }
}

/// Trying URL `i` onwards of `n`, with one outcome for each and then the
/// outcome of reading the cache, settles on the first manifest that arrived,
/// else the cached one, else the empty one.
proof fn lemma_manifest_run_from(
    i: nat,
    n: nat,
    fetched: Seq<Option<RemoteConfig>>,
    cached: Option<RemoteConfig>,
    extra: Seq<Option<RemoteConfig>>,
)
    requires
        i < n,
        n <= usize::MAX,
        fetched.len() == n - i,
    ensures
        manifest_run(ManifestStage::Fetch(i as usize), n, fetched + seq![cached] + extra)
            == ManifestStage::Settled(first_manifest(fetched, cached)),
    decreases n - i,
{
    let all = fetched + seq![cached] + extra;
    assert(all[0] == fetched[0]);
    assert(all.drop_first() =~= fetched.drop_first() + seq![cached] + extra);
    match fetched[0] {
        Some(c) => {
            let rest = all.drop_first();
            assert(rest.len() > 0);
            lemma_settled_stays(c, n, rest.drop_first());
            assert(manifest_run(ManifestStage::Store(c), n, rest) == manifest_run(
                ManifestStage::Settled(c),
                n,
                rest.drop_first(),
            ));
        },
        None => {
            if i + 1 < n {
                lemma_manifest_run_from(i + 1, n, fetched.drop_first(), cached, extra);
            } else {
                assert(fetched.drop_first().len() == 0);
                let rest = all.drop_first();
                assert(rest[0] == cached);
                let after = manifest_next(ManifestStage::ReadCache, n, cached);
                lemma_settled_stays(first_manifest(fetched.drop_first(), cached), n, rest.drop_first());
                assert(manifest_run(ManifestStage::ReadCache, n, rest) == manifest_run(
                    after,
                    n,
                    rest.drop_first(),
                ));
            }
        },
    }
}

/// A settled manifest stays settled.
proof fn lemma_settled_stays(c: RemoteConfig, n: nat, outcomes: Seq<Option<RemoteConfig>>)
    ensures
        manifest_run(ManifestStage::Settled(c), n, outcomes) == ManifestStage::Settled(c),
    decreases outcomes.len(),
{
    if outcomes.len() > 0 {
        lemma_settled_stays(c, n, outcomes.drop_first());
    }
}

/// The manifest URLs are tried in order and the first manifest that arrives
/// wins; later URLs are not tried. When none arrives, the cached copy is
/// used, and failing that the empty manifest.
pub proof fn first_arriving_manifest_wins(
    n: nat,
    fetched: Seq<Option<RemoteConfig>>,
    cached: Option<RemoteConfig>,
    extra: Seq<Option<RemoteConfig>>,
)
    requires
        0 < n <= usize::MAX,
        fetched.len() == n,
    ensures
        manifest_run(ManifestStage::Fetch(0), n, fetched + seq![cached] + extra)
            == ManifestStage::Settled(first_manifest(fetched, cached)),
        forall|k: int|
            0 <= k < n && fetched[k] is Some ==> manifest_found(
                manifest_run(ManifestStage::Fetch(0), n, #[trigger] fetched.take(k + 1)),
            ),
{
    lemma_manifest_run_from(0, n, fetched, cached, extra);
    assert forall|k: int| 0 <= k < n && fetched[k] is Some implies manifest_found(
        manifest_run(ManifestStage::Fetch(0), n, #[trigger] fetched.take(k + 1)),
    ) by {
        lemma_stops_at_first(0, n, fetched.take(k + 1));
    }
}

/// A manifest was found: it is being cached or is settled on, and no
/// further URL is tried.
pub open spec fn manifest_found(stage: ManifestStage) -> bool {
    stage is Store || stage is Settled
}

/// Only a manifest just fetched from a URL is written to the cache, and it
/// is the one that is then settled on; the cached copy and the empty
/// manifest are never written back.
pub proof fn only_fetched_manifest_is_cached(
    stage: ManifestStage,
    url_count: nat,
    outcome: Option<RemoteConfig>,
)
    ensures
        manifest_next(stage, url_count, outcome) matches ManifestStage::Store(c) ==> stage is Fetch
            && outcome == Some(c),
        stage matches ManifestStage::Store(c) ==> manifest_next(stage, url_count, outcome)
            == ManifestStage::Settled(c),
{
}

/// Running from URL `i` through outcomes of which the last is a manifest
/// finds a manifest.
proof fn lemma_stops_at_first(i: nat, n: nat, outcomes: Seq<Option<RemoteConfig>>)
    requires
        i < n <= usize::MAX,
        outcomes.len() >= 1,
        i + outcomes.len() <= n,
        outcomes.last() is Some,
    ensures
        manifest_found(manifest_run(ManifestStage::Fetch(i as usize), n, outcomes)),
    decreases outcomes.len(),
{
    match outcomes[0] {
        Some(c) => {
            let rest = outcomes.drop_first();
            if rest.len() > 0 {
                lemma_settled_stays(c, n, rest.drop_first());
                assert(manifest_run(ManifestStage::Store(c), n, rest) == manifest_run(
                    ManifestStage::Settled(c),
                    n,
                    rest.drop_first(),
                ));
            }
        },
        None => {
            assert(outcomes.len() > 1);
            assert(outcomes.drop_first().last() == outcomes.last());
            lemma_stops_at_first(i + 1, n, outcomes.drop_first());
        },
    }
}

} // verus!
