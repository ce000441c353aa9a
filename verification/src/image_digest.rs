//! The cache of the latest image digests found in registries: a digest
//! is reused for ten minutes after it was fetched.
use crate::connection::str_eq;
use vstd::prelude::*;

verus! {

/// How long a fetched digest is reused, in milliseconds.
pub const DIGEST_VALID_MS: i64 = 600000;

/// The digest of an image, as found in a registry or on a container.
#[derive(Debug)]
pub struct ImageDigest {
    pub image: String,
    pub digest: String,
}

/// The value of an image digest.
pub struct ImageDigestView {
    pub image: Seq<char>,
    pub digest: Seq<char>,
}

impl View for ImageDigest {
    type V = ImageDigestView;

    open spec fn view(&self) -> ImageDigestView {
        ImageDigestView { image: self.image@, digest: self.digest@ }
    }
}

/// Whether `latest` is not among the digests the containers run.
pub open spec fn update_available_spec(latest: ImageDigestView, current: Seq<ImageDigest>) -> bool {
    forall|i: int| 0 <= i < current.len() ==> (#[trigger] current[i])@.digest != latest.digest
}

impl ImageDigest {
    /// The digest of `image`.
    pub fn new(image: &str, digest: &str) -> (d: ImageDigest)
        ensures
            d@ == (ImageDigestView { image: image@, digest: digest@ }),
    {
        ImageDigest { image: image.to_owned(), digest: digest.to_owned() }
    }

    /// A copy of the digest.
    pub fn duplicate(&self) -> (d: ImageDigest)
        ensures
            d == *self,
    {
        ImageDigest { image: self.image.clone(), digest: self.digest.clone() }
    }

    /// Whether an update is available: the digest differs from every
    /// digest the running containers have.
    pub fn update_available(&self, current: &Vec<ImageDigest>) -> (r: bool)
        ensures
            r == update_available_spec(self@, current@),
    {
        let mut i: usize = 0;
        while i < current.len()
            invariant
                i <= current.len(),
                forall|j: int| 0 <= j < i ==> (#[trigger] current@[j])@.digest != self@.digest,
            decreases current.len() - i,
        {
            if str_eq(current[i].digest.as_str(), self.digest.as_str()) {
                return false;
            }
            i = i + 1;
        }
        true
    }
}

/// One cached digest.
struct CacheEntry {
    image: String,
    digest: ImageDigest,
    valid_until: i64,
}

/// The value of a cache entry: image, digest and expiry.
pub type CacheEntryView = (Seq<char>, ImageDigestView, i64);

/// The cached digest and expiry of `image`: the last entry for it decides.
pub open spec fn cache_lookup(entries: Seq<CacheEntryView>, image: Seq<char>) -> Option<(ImageDigestView, i64)>
    decreases entries.len(),
{
    if entries.len() == 0 {
        None
    } else if entries.last().0 == image {
        Some((entries.last().1, entries.last().2))
    } else {
        cache_lookup(entries.drop_last(), image)
    }
}

/// The entries that pass `keep` on their expiry and image.
pub open spec fn cache_filter(entries: Seq<CacheEntryView>, drop_image: Option<Seq<char>>, min_valid: Option<i64>) -> Seq<
    CacheEntryView,
>
    decreases entries.len(),
{
    if entries.len() == 0 {
        entries
    } else {
        let rest = cache_filter(entries.drop_last(), drop_image, min_valid);
        if entry_kept(entries.last(), drop_image, min_valid) {
            rest.push(entries.last())
        } else {
            rest
        }
    }
}

/// Whether an entry stays: it is not for `drop_image`, and it is valid
/// after `min_valid`.
pub open spec fn entry_kept(e: CacheEntryView, drop_image: Option<Seq<char>>, min_valid: Option<i64>) -> bool {
    &&& (drop_image matches Some(img) ==> e.0 != img)
    &&& (min_valid matches Some(ts) ==> e.2 > ts)
}

/// Filtering keeps the lookup of each image that stays, and forgets
/// the others.
pub proof fn lemma_lookup_filter(
    entries: Seq<CacheEntryView>,
    drop_image: Option<Seq<char>>,
    min_valid: Option<i64>,
    image: Seq<char>,
)
    ensures
        drop_image == Some(image) ==> cache_lookup(cache_filter(entries, drop_image, min_valid), image) is None,
        drop_image != Some(image) && min_valid is None ==> cache_lookup(cache_filter(entries, drop_image, min_valid), image)
            == cache_lookup(entries, image),
        cache_lookup(cache_filter(entries, drop_image, min_valid), image) matches Some(v) ==> (min_valid matches Some(
            ts,
        ) ==> v.1 > ts),
    decreases entries.len(),
{
    if entries.len() > 0 {
        lemma_lookup_filter(entries.drop_last(), drop_image, min_valid, image);
        let rest = cache_filter(entries.drop_last(), drop_image, min_valid);
        if entry_kept(entries.last(), drop_image, min_valid) {
            assert(rest.push(entries.last()).drop_last() =~= rest);
        }
    }
}

/// Dropping expired entries keeps the lookup of each image whose digest
/// is still valid, and finds nothing for an image without a digest.
pub proof fn lemma_lookup_retain(entries: Seq<CacheEntryView>, ts: i64, image: Seq<char>)
    ensures
        cache_lookup(entries, image) matches Some(v) && v.1 > ts ==> cache_lookup(
            cache_filter(entries, None, Some(ts)),
            image,
        ) == cache_lookup(entries, image),
        cache_lookup(entries, image) is None ==> cache_lookup(cache_filter(entries, None, Some(ts)), image) is None,
    decreases entries.len(),
{
    if entries.len() > 0 {
        lemma_lookup_retain(entries.drop_last(), ts, image);
        let rest = cache_filter(entries.drop_last(), None, Some(ts));
        if entry_kept(entries.last(), None, Some(ts)) {
            assert(rest.push(entries.last()).drop_last() =~= rest);
        }
    }
}

/// Maps images to their latest digest, each valid until a time in
/// milliseconds.
pub struct ImageDigestCache {
    entries: Vec<CacheEntry>,
}

impl ImageDigestCache {
    /// The entries as values.
    closed spec fn entries_view(&self) -> Seq<CacheEntryView> {
        self.entries@.map_values(|e: CacheEntry| (e.image@, e.digest@, e.valid_until))
    }

    /// The cached digest of `image` and when it expires, if any.
    pub closed spec fn cached(&self, image: Seq<char>) -> Option<(ImageDigestView, i64)> {
        cache_lookup(self.entries_view(), image)
    }

    /// An empty cache.
    pub fn new() -> (c: ImageDigestCache)
        ensures
            forall|image: Seq<char>| #[trigger] c.cached(image) is None,
    {
        let c = ImageDigestCache { entries: Vec::new() };
        assert(c.entries_view() =~= Seq::empty());
        c
    }

    /// The cached digest of `image` if it is still valid at `now`
    /// (expires strictly after it); `None` means it must be fetched.
    pub fn get(&self, image: &str, now: i64) -> (digest: Option<ImageDigest>)
        ensures
            digest matches Some(d) ==> (self.cached(image@) matches Some(v) && v.0 == d@ && v.1 > now),
            digest is None ==> !(self.cached(image@) matches Some(v) && v.1 > now),
    {
        let ghost view = self.entries_view();
        let mut i: usize = self.entries.len();
        assert(view.take(i as int) =~= view);
        while i > 0
            invariant
                i <= self.entries.len(),
                view == self.entries_view(),
                cache_lookup(view, image@) == cache_lookup(view.take(i as int), image@),
            decreases i,
        {
            let e = &self.entries[i - 1];
            assert(view.take(i as int).drop_last() =~= view.take(i - 1));
            assert(view.take(i as int).last() == view[i - 1]);
            if str_eq(e.image.as_str(), image) {
                if e.valid_until > now {
                    return Some(e.digest.duplicate());
                } else {
                    return None;
                }
            }
            i = i - 1;
        }
        assert(view.take(0) =~= Seq::<CacheEntryView>::empty());
        None
    }

    /// Keeps only the entries `entry_kept` accepts.
    fn filter(&mut self, drop_image: Option<&str>, min_valid: Option<i64>)
        ensures
            final(self).entries_view() == cache_filter(
                old(self).entries_view(),
                match drop_image {
                    Some(s) => Some(s@),
                    None => None,
                },
                min_valid,
            ),
    {
        let ghost view = self.entries_view();
        let ghost drop_view: Option<Seq<char>> = match drop_image {
            Some(s) => Some(s@),
            None => None,
        };
        let mut kept: Vec<CacheEntry> = Vec::new();
        let mut i: usize = 0;
        while i < self.entries.len()
            invariant
                i <= self.entries.len(),
                view == self.entries_view(),
                drop_view == match drop_image {
                    Some(s) => Some(s@),
                    None => None,
                },
                kept@.map_values(|e: CacheEntry| (e.image@, e.digest@, e.valid_until)) == cache_filter(
                    view.take(i as int),
                    drop_view,
                    min_valid,
                ),
            decreases self.entries.len() - i,
        {
            let e = &self.entries[i];
            assert(view.take(i + 1).drop_last() =~= view.take(i as int));
            assert(view.take(i + 1).last() == view[i as int]);
            let dropped_by_image = match drop_image {
                Some(img) => str_eq(e.image.as_str(), img),
                None => false,
            };
            let dropped_by_time = match min_valid {
                Some(ts) => e.valid_until <= ts,
                None => false,
            };
            if !dropped_by_image && !dropped_by_time {
                let ghost before = kept@;
                kept.push(CacheEntry { image: e.image.clone(), digest: e.digest.duplicate(), valid_until: e.valid_until });
                assert(kept@.map_values(|e: CacheEntry| (e.image@, e.digest@, e.valid_until)) =~= before.map_values(
                    |e: CacheEntry| (e.image@, e.digest@, e.valid_until),
                ).push(view[i as int]));
            }
            i = i + 1;
        }
        assert(view.take(self.entries.len() as int) =~= view);
        self.entries = kept;
    }

    /// Records the digest fetched for `image` at `now`; it is reused
    /// for ten minutes.
    pub fn insert(&mut self, image: String, digest: ImageDigest, now: i64)
        requires
            now <= i64::MAX - DIGEST_VALID_MS,
        ensures
            final(self).cached(image@) == Some((digest@, (now + DIGEST_VALID_MS) as i64)),
            forall|other: Seq<char>| other != image@ ==> #[trigger] final(self).cached(other) == old(self).cached(other),
    {
        let ghost old_view = self.entries_view();
        self.filter(Some(image.as_str()), None);
        let ghost filtered = self.entries_view();
        let ghost image_view = image@;
        let ghost digest_view = digest@;
        self.entries.push(CacheEntry { image, digest, valid_until: now + DIGEST_VALID_MS });
        proof {
            assert(self.entries_view() =~= filtered.push((image_view, digest_view, (now + DIGEST_VALID_MS) as i64)));
            assert(self.entries_view().drop_last() =~= filtered);
            assert forall|other: Seq<char>| other != image_view implies #[trigger] self.cached(other) == old(
                self,
            ).cached(other) by {
                lemma_lookup_filter(old_view, Some(image_view), None, other);
            }
        }
    }

    /// Drops every digest that is no longer valid at `ts`, keeping those
    /// that are.
    pub fn retain_valid(&mut self, ts: i64)
        ensures
            forall|image: Seq<char>| (#[trigger] final(self).cached(image)) is Some ==> (final(self).cached(image)->0).1 > ts,
            forall|image: Seq<char>|
                (old(self).cached(image) matches Some(v) && v.1 > ts) ==> #[trigger] final(self).cached(image)
                    == old(self).cached(image),
            forall|image: Seq<char>| old(self).cached(image) is None ==> (#[trigger] final(self).cached(image)) is None,
    {
        let ghost old_view = self.entries_view();
        self.filter(None, Some(ts));
        proof {
            assert forall|image: Seq<char>| (#[trigger] self.cached(image)) is Some implies (self.cached(image)->0).1 > ts by {
                lemma_lookup_filter(old_view, None, Some(ts), image);
            }
            assert forall|image: Seq<char>|
                (old(self).cached(image) matches Some(v) && v.1 > ts) implies #[trigger] self.cached(image)
                    == old(self).cached(image) by {
                lemma_lookup_retain(old_view, ts, image);
            }
            assert forall|image: Seq<char>| old(self).cached(image) is None implies (#[trigger] self.cached(image)) is None by {
                lemma_lookup_retain(old_view, ts, image);
            }
        }
    }
}

/// A digest recorded at `now` is served by `get` until ten minutes
/// later, and must be fetched again after.
pub proof fn law_digest_reused_for_ten_minutes(
    cache: ImageDigestCache,
    image: Seq<char>,
    digest: ImageDigestView,
    now: i64,
    later: i64,
)
    requires
        now <= i64::MAX - DIGEST_VALID_MS,
        cache.cached(image) == Some((digest, (now + DIGEST_VALID_MS) as i64)),
    ensures
        later < now + DIGEST_VALID_MS ==> (cache.cached(image) matches Some(v) && v.0 == digest && v.1 > later),
        later >= now + DIGEST_VALID_MS ==> !(cache.cached(image) matches Some(v) && v.1 > later),
{
}

/// An update is available exactly when no container already runs the
/// latest digest: one that runs it means none, and with no container
/// reporting a digest the latest one is new.
pub proof fn law_update_available_when_latest_not_running(latest: ImageDigestView, current: Seq<ImageDigest>, i: int)
    requires
        0 <= i < current.len(),
    ensures
        current[i]@.digest == latest.digest ==> !update_available_spec(latest, current),
        update_available_spec(latest, Seq::<ImageDigest>::empty()),
        update_available_spec(latest, current) ==> current[i]@.digest != latest.digest,
{
}

} // verus!
