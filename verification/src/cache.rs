//! The font cache: which description resolved to which key, and which key
//! names which loaded face.

use crate::face::Font;
use crate::types::{FontDesc, FontDescView, FontKey};
use std::collections::HashMap;
use vstd::prelude::*;

verus! {

/// What a font cache holds.
pub struct CacheModel<F> {
    /// Number of the rasterizer whose cache this is.
    pub owner: u64,
    /// The key that each resolved description was given.
    pub keys: Map<FontDescView, FontKey>,
    /// The face that each issued key names.
    pub fonts: Map<FontKey, Font<F>>,
    /// Number of keys issued so far.
    pub issued: nat,
}

impl<F> CacheModel<F> {
    /// The cache of the rasterizer `owner` that holds nothing.
    pub open spec fn empty(owner: u64) -> Self {
        CacheModel { owner, keys: Map::empty(), fonts: Map::empty(), issued: 0 }
    }

    /// Whether the cache is one that loading can lead to: the issued keys are
    /// those of this cache's owner with the positions below `issued`, each of
    /// them names a face, every description has one of them, and no two
    /// descriptions share one.
    pub open spec fn wf(self) -> bool {
        &&& self.issued <= u64::MAX
        &&& forall|key: FontKey| #[trigger]
            self.fonts.contains_key(key) <==> key.owner() == self.owner && key.token()
                < self.issued
        &&& forall|desc: FontDescView| #[trigger]
            self.keys.contains_key(desc) ==> self.fonts.contains_key(self.keys[desc])
        &&& forall|first: FontDescView, second: FontDescView|
            self.keys.contains_key(first) && self.keys.contains_key(second) && first != second
                ==> self.keys[first] != self.keys[second]
    }

    /// The face a key names, if the key was issued by this cache.
    pub open spec fn get(self, key: FontKey) -> Option<Font<F>> {
        if self.fonts.contains_key(key) {
            Some(self.fonts[key])
        } else {
            None
        }
    }

    /// The key of a description, if the description was resolved before.
    pub open spec fn key_for(self, desc: FontDescView) -> Option<FontKey> {
        if self.keys.contains_key(desc) {
            Some(self.keys[desc])
        } else {
            None
        }
    }

    /// The cache after `font` was stored for `desc` under the next key.
    pub open spec fn with(self, desc: FontDescView, font: Font<F>) -> Self {
        CacheModel {
            owner: self.owner,
            keys: self.keys.insert(desc, FontKey::nth(self.owner, self.issued)),
            fonts: self.fonts.insert(FontKey::nth(self.owner, self.issued), font),
            issued: self.issued + 1,
        }
    }

    /// Loading `desc`, where `matched` is what font matching finds for it.
    ///
    /// A description resolved before keeps its key and nothing changes.
    /// Else a matched face is stored under the next key, and without a
    /// matched face nothing changes and no key is given.
    pub open spec fn load(self, desc: FontDescView, matched: Option<Font<F>>) -> (Self, Option<
        FontKey,
    >) {
        if self.keys.contains_key(desc) {
            (self, Some(self.keys[desc]))
        } else {
            match matched {
                Some(font) => (
                    self.with(desc, font),
                    Some(FontKey::nth(self.owner, self.issued)),
                ),
                None => (self, None),
            }
        }
    }

    /// Loading leads from caches that are well formed to such caches.
    pub proof fn lemma_load_keeps_wf(self, desc: FontDescView, matched: Option<Font<F>>)
        requires
            self.wf(),
            self.issued < u64::MAX,
        ensures
            self.load(desc, matched).0.wf(),
            self.load(desc, matched).0.owner == self.owner,
    {
        if !self.keys.contains_key(desc) && matched is Some {
            let next = self.with(desc, matched.unwrap());
            FontKey::lemma_nth(self.owner, self.issued);
            let key = FontKey::nth(self.owner, self.issued);
            assert forall|other: FontKey| #[trigger]
                next.fonts.contains_key(other) <==> other.owner() == next.owner && other.token()
                    < next.issued by {
                key.lemma_identified(other);
            }
            assert forall|first: FontDescView, second: FontDescView|
                next.keys.contains_key(first) && next.keys.contains_key(second) && first
                    != second implies next.keys[first] != next.keys[second] by {
                if first != desc {
                    assert(self.fonts.contains_key(self.keys[first]));
                }
                if second != desc {
                    assert(self.fonts.contains_key(self.keys[second]));
                }
            }
            assert forall|any: FontDescView| #[trigger]
                next.keys.contains_key(any) implies next.fonts.contains_key(next.keys[any]) by {
                if any != desc {
                    assert(self.fonts.contains_key(self.keys[any]));
                }
            }
        }
    }

    /// Loading a description twice gives the same key both times, whatever
    /// font matching would find the second time, and the second load changes
    /// nothing.
    pub proof fn lemma_load_idempotent(
        self,
        desc: FontDescView,
        first: Option<Font<F>>,
        second: Option<Font<F>>,
    )
        requires
            self.load(desc, first).1 is Some,
        ensures
            self.load(desc, first).0.load(desc, second) == self.load(desc, first),
    {
    }

    /// Two different descriptions that both resolve get different keys.
    pub proof fn lemma_distinct_descriptions_distinct_keys(
        self,
        first: FontDescView,
        first_matched: Option<Font<F>>,
        second: FontDescView,
        second_matched: Option<Font<F>>,
    )
        requires
            self.wf(),
            self.issued + 1 < u64::MAX,
            first != second,
            self.load(first, first_matched).1 is Some,
            self.load(first, first_matched).0.load(second, second_matched).1 is Some,
        ensures
            self.load(first, first_matched).1 != self.load(first, first_matched).0.load(
                second,
                second_matched,
            ).1,
    {
        let (middle, first_key) = self.load(first, first_matched);
        self.lemma_load_keeps_wf(first, first_matched);
        let (last, second_key) = middle.load(second, second_matched);
        middle.lemma_load_keeps_wf(second, second_matched);
        assert(middle.keys.contains_key(first));
        assert(last.keys.contains_key(first) && last.keys[first] == first_key.unwrap());
        assert(last.keys.contains_key(second) && last.keys[second] == second_key.unwrap());
    }

    /// Once a key is issued it names its face for good: loading anything
    /// afterwards leaves the key and its face in place, and every
    /// description keeps the key it has.
    pub proof fn lemma_load_keeps_entries(
        self,
        desc: FontDescView,
        matched: Option<Font<F>>,
        key: FontKey,
        earlier: FontDescView,
    )
        requires
            self.wf(),
            self.issued < u64::MAX,
        ensures
            self.get(key) is Some ==> self.load(desc, matched).0.get(key) == self.get(key),
            self.key_for(earlier) is Some ==> self.load(desc, matched).0.key_for(earlier)
                == self.key_for(earlier),
            self.load(desc, matched).0.issued >= self.issued,
    {
        FontKey::lemma_nth(self.owner, self.issued);
    }

    /// The key that a load gives resolves: the face it names is in the cache
    /// after the load.
    pub proof fn lemma_loaded_key_resolves(self, desc: FontDescView, matched: Option<Font<F>>)
        requires
            self.wf(),
        ensures
            self.load(desc, matched).1 matches Some(key) ==> {
                &&& self.load(desc, matched).0.get(key) is Some
                &&& self.load(desc, matched).0.key_for(desc) == Some(key)
            },
            self.load(desc, matched).1 is None <==> !self.keys.contains_key(desc) && matched
                is None,
    {
    }

    /// A newly issued key is later in the order than every key that its
    /// cache issued before, and names nothing in the cache of any other
    /// owner: no key is issued twice.
    pub proof fn lemma_new_key_is_fresh(
        self,
        desc: FontDescView,
        font: Font<F>,
        key: FontKey,
        elsewhere: CacheModel<F>,
    )
        requires
            self.wf(),
            self.issued < u64::MAX,
            !self.keys.contains_key(desc),
            elsewhere.wf(),
            elsewhere.owner != self.owner,
        ensures
            self.load(desc, Some(font)).1 matches Some(new_key) && {
                &&& self.get(new_key) is None
                &&& self.get(key) is Some ==> new_key.token() > key.token()
                &&& elsewhere.get(new_key) is None
            },
    {
        FontKey::lemma_nth(self.owner, self.issued);
    }

    /// A key names a face in this cache exactly when this cache's owner
    /// issued it: it has the owner's number and a position below the count of
    /// issued keys.
    pub proof fn lemma_known_keys(self, key: FontKey)
        requires
            self.wf(),
        ensures
            self.get(key) is Some <==> key.owner() == self.owner && key.token() < self.issued,
    {
    }

    /// A key of another owner names nothing in this cache, whatever its
    /// position.
    pub proof fn lemma_foreign_key(self, key: FontKey)
        requires
            self.wf(),
            key.owner() != self.owner,
        ensures
            self.get(key) is None,
    {
    }

    /// Caches of different owners share no key: what one of them issued,
    /// the other does not know.
    pub proof fn lemma_caches_share_no_key(self, other: CacheModel<F>, key: FontKey)
        requires
            self.wf(),
            other.wf(),
            self.owner != other.owner,
            self.get(key) is Some,
        ensures
            other.get(key) is None,
    {
    }
}

/// One resolved description with the key it was given.
struct Known {
    desc: FontDesc,
    key: FontKey,
}

/// The tables of the cache: the descriptions with their keys, in the order
/// in which the keys were issued; the faces by the positions of their keys;
/// and for every bucket number the positions of the descriptions in that
/// bucket.
///
/// A description is looked for in its bucket only, where it is compared
/// with the others by its characters.
struct Tables<F> {
    keys: Vec<Known>,
    fonts: HashMap<u64, Font<F>>,
    buckets: HashMap<u64, Vec<usize>>,
}

/// The cache of resolved fonts. Nothing ever leaves it.
pub struct FontCache<F> {
    owner: u64,
    tables: Tables<F>,
}

/// Whether the description at `position` is listed in the bucket `number`.
spec fn listed(buckets: Map<u64, Vec<usize>>, number: u64, position: int) -> bool {
    &&& buckets.contains_key(number)
    &&& exists|place: int|
        0 <= place < buckets[number]@.len() && buckets[number]@[place] == position
}

/// Whether the buckets list every description once under its bucket number
/// and list nothing else.
spec fn buckets_wf(keys: Seq<Known>, buckets: Map<u64, Vec<usize>>) -> bool {
    &&& forall|number: u64, place: int|
        buckets.contains_key(number) && 0 <= place < buckets[number]@.len() ==> {
            &&& (#[trigger] buckets[number]@[place]) < keys.len()
            &&& keys[buckets[number]@[place] as int].desc@.bucket() == number
        }
    &&& forall|position: int|
        0 <= position < keys.len() ==> listed(
            buckets,
            (#[trigger] keys[position]).desc@.bucket(),
            position,
        )
}

/// Whether the tables are those of a cache of `owner`: no description occurs
/// twice, each has the key of its position, and the faces are those of the
/// positions of the keys.
spec fn tables_wf<F>(owner: u64, keys: Seq<Known>, fonts: Map<u64, Font<F>>) -> bool {
    &&& keys.len() <= u64::MAX
    &&& forall|i: int, j: int|
        0 <= i < keys.len() && 0 <= j < keys.len() && i != j ==> keys[i].desc@ != keys[j].desc@
    &&& forall|i: int| 0 <= i < keys.len() ==> (#[trigger] keys[i]).key == FontKey::nth(
        owner,
        i as nat,
    )
    &&& forall|token: u64| #[trigger] fonts.contains_key(token) <==> token < keys.len()
}

/// The key of each description in the table.
spec fn keys_of(keys: Seq<Known>) -> Map<FontDescView, FontKey>
    decreases keys.len(),
{
    if keys.len() == 0 {
        Map::empty()
    } else {
        keys_of(keys.drop_last()).insert(keys.last().desc@, keys.last().key)
    }
}

/// The cache of `owner` that holds the tables.
spec fn model_of<F>(owner: u64, keys: Seq<Known>, fonts: Map<u64, Font<F>>) -> CacheModel<F> {
    CacheModel {
        owner,
        keys: keys_of(keys),
        fonts: Map::new(
            |key: FontKey| key.owner() == owner && key.token() < keys.len(),
            |key: FontKey| fonts[key.token()],
        ),
        issued: keys.len(),
    }
}

proof fn lemma_keys_of(owner: u64, keys: Seq<Known>)
    requires
        keys.len() <= u64::MAX,
        forall|i: int, j: int|
            0 <= i < keys.len() && 0 <= j < keys.len() && i != j ==> keys[i].desc@
                != keys[j].desc@,
        forall|i: int| 0 <= i < keys.len() ==> (#[trigger] keys[i]).key == FontKey::nth(
            owner,
            i as nat,
        ),
    ensures
        forall|i: int|
            0 <= i < keys.len() ==> {
                &&& #[trigger] keys_of(keys).contains_key(keys[i].desc@)
                &&& keys_of(keys)[keys[i].desc@] == FontKey::nth(owner, i as nat)
            },
        forall|desc: FontDescView| #[trigger]
            keys_of(keys).contains_key(desc) ==> exists|i: int|
                0 <= i < keys.len() && keys[i].desc@ == desc,
    decreases keys.len(),
{
    if keys.len() > 0 {
        let front = keys.drop_last();
        let last = keys.last();
        assert forall|i: int| 0 <= i < front.len() implies front[i] == keys[i] by {}
        lemma_keys_of(owner, front);
        assert forall|i: int| 0 <= i < keys.len() implies {
            &&& #[trigger] keys_of(keys).contains_key(keys[i].desc@)
            &&& keys_of(keys)[keys[i].desc@] == FontKey::nth(owner, i as nat)
        } by {
            if i < front.len() {
                assert(front[i] == keys[i]);
                assert(keys_of(front).contains_key(front[i].desc@));
                assert(keys[i].desc@ != keys[keys.len() - 1].desc@);
            } else {
                assert(keys[i] == last);
            }
        }
        assert forall|desc: FontDescView| #[trigger]
            keys_of(keys).contains_key(desc) implies exists|i: int|
            0 <= i < keys.len() && keys[i].desc@ == desc by {
            if desc == last.desc@ {
                assert(keys[keys.len() - 1].desc@ == desc);
            } else {
                assert(keys_of(front).contains_key(desc));
                let i = choose|i: int| 0 <= i < front.len() && front[i].desc@ == desc;
                assert(front[i] == keys[i]);
            }
        }
    }
}

proof fn lemma_model_of<F>(owner: u64, keys: Seq<Known>, fonts: Map<u64, Font<F>>)
    requires
        tables_wf(owner, keys, fonts),
    ensures
        model_of(owner, keys, fonts).wf(),
{
    lemma_keys_of(owner, keys);
    let model = model_of(owner, keys, fonts);
    assert forall|desc: FontDescView| #[trigger]
        model.keys.contains_key(desc) implies model.fonts.contains_key(model.keys[desc]) by {
        let i = choose|i: int| 0 <= i < keys.len() && keys[i].desc@ == desc;
        assert(model.keys.contains_key(keys[i].desc@));
        FontKey::lemma_nth(owner, i as nat);
    }
    assert forall|first: FontDescView, second: FontDescView|
        model.keys.contains_key(first) && model.keys.contains_key(second) && first
            != second implies model.keys[first] != model.keys[second] by {
        let i = choose|i: int| 0 <= i < keys.len() && keys[i].desc@ == first;
        let j = choose|j: int| 0 <= j < keys.len() && keys[j].desc@ == second;
        assert(model.keys.contains_key(keys[i].desc@));
        assert(model.keys.contains_key(keys[j].desc@));
        FontKey::lemma_nth(owner, i as nat);
        FontKey::lemma_nth(owner, j as nat);
    }
}

impl<F> View for FontCache<F> {
    type V = CacheModel<F>;

    closed spec fn view(&self) -> CacheModel<F> {
        model_of(self.owner, self.tables.keys@, self.tables.fonts@)
    }
}

impl<F> FontCache<F> {
    #[verifier::type_invariant]
    spec fn tables_agree(&self) -> bool {
        &&& tables_wf(self.owner, self.tables.keys@, self.tables.fonts@)
        &&& buckets_wf(self.tables.keys@, self.tables.buckets@)
    }

    /// The cache of the rasterizer `owner` that holds nothing.
    pub fn new(owner: u64) -> (cache: FontCache<F>)
        ensures
            cache@ == CacheModel::<F>::empty(owner),
            cache@.wf(),
    {
        let cache = FontCache {
            owner,
            tables: Tables { keys: Vec::new(), fonts: HashMap::new(), buckets: HashMap::new() },
        };
        proof {
            assert(cache@.keys == Map::<FontDescView, FontKey>::empty());
            assert(cache@.fonts =~= Map::<FontKey, Font<F>>::empty());
        }
        cache
    }

    /// Number of the rasterizer whose cache this is.
    pub fn owner(&self) -> (owner: u64)
        ensures
            owner == self@.owner,
    {
        self.owner
    }

    /// The key of a description, if the description was resolved before.
    pub fn key_for(&self, desc: &FontDesc) -> (key: Option<FontKey>)
        ensures
            key == self@.key_for(desc@),
            self@.wf(),
    {
        proof {
            use_type_invariant(self);
            lemma_model_of(self.owner, self.tables.keys@, self.tables.fonts@);
            lemma_keys_of(self.owner, self.tables.keys@);
        }
        let number = desc.bucket();
        let bucket = match self.tables.buckets.get(&number) {
            Some(bucket) => bucket,
            None => {
                proof {
                    if keys_of(self.tables.keys@).contains_key(desc@) {
                        let position = choose|position: int|
                            0 <= position < self.tables.keys@.len()
                                && self.tables.keys@[position].desc@ == desc@;
                        assert(listed(
                            self.tables.buckets@,
                            self.tables.keys@[position].desc@.bucket(),
                            position,
                        ));
                    }
                }
                return None;
            },
        };
        let mut place: usize = 0;
        while place < bucket.len()
            invariant
                place <= bucket@.len(),
                self.tables.buckets@.contains_key(number),
                self.tables.buckets@[number] == *bucket,
                forall|earlier: int|
                    0 <= earlier < place ==> self.tables.keys@[bucket@[earlier] as int].desc@
                        != desc@,
            decreases bucket.len() - place,
        {
            proof {
                use_type_invariant(self);
                assert(self.tables.buckets@[number]@[place as int] < self.tables.keys@.len());
            }
            let position = bucket[place];
            if self.tables.keys[position].desc.same_as(desc) {
                proof {
                    lemma_model_of(self.owner, self.tables.keys@, self.tables.fonts@);
                    lemma_keys_of(self.owner, self.tables.keys@);
                    assert(keys_of(self.tables.keys@).contains_key(
                        self.tables.keys@[position as int].desc@,
                    ));
                }
                return Some(self.tables.keys[position].key);
            }
            place = place + 1;
        }
        proof {
            if keys_of(self.tables.keys@).contains_key(desc@) {
                let position = choose|position: int|
                    0 <= position < self.tables.keys@.len() && self.tables.keys@[position].desc@
                        == desc@;
                assert(listed(
                    self.tables.buckets@,
                    self.tables.keys@[position].desc@.bucket(),
                    position,
                ));
                let found = choose|found: int|
                    0 <= found < bucket@.len() && bucket@[found] == position;
                assert(self.tables.keys@[bucket@[found] as int].desc@ != desc@);
            }
        }
        None
    }

    /// The face a key names, if the key was issued by this cache.
    pub fn get(&self, key: FontKey) -> (font: Option<&Font<F>>)
        ensures
            font.is_some() == self@.get(key).is_some(),
            font matches Some(found) ==> self@.get(key) == Some(*found),
            self@.wf(),
    {
        proof {
            use_type_invariant(self);
            lemma_model_of(self.owner, self.tables.keys@, self.tables.fonts@);
        }
        if key.owner() != self.owner {
            return None;
        }
        let token = key.token();
        self.tables.fonts.get(&token)
    }

    /// Loads `desc`, where `matched` is what font matching found for it.
    pub fn load(&mut self, desc: &FontDesc, matched: Option<Font<F>>) -> (key: Option<FontKey>)
        ensures
            (final(self)@, key) == old(self)@.load(desc@, matched),
            final(self)@.wf(),
            final(self)@.owner == old(self)@.owner,
    {
        let cached = self.key_for(desc);
        if cached.is_some() {
            return cached;
        }
        match matched {
            None => None,
            Some(font) => {
                let count = self.tables.keys.len();
                proof {
                    use_type_invariant(&*self);
                    lemma_keys_of(self.owner, self.tables.keys@);
                }
                let ghost before = self.tables.keys@;
                let ghost faces = self.tables.fonts@;
                let ghost listing = self.tables.buckets@;
                let mut tables = Tables {
                    keys: Vec::new(),
                    fonts: HashMap::new(),
                    buckets: HashMap::new(),
                };
                std::mem::swap(&mut tables, &mut self.tables);
                let key = FontKey::issue(self.owner, count as u64);
                tables.keys.push(Known { desc: desc.clone(), key });
                tables.fonts.insert(count as u64, font);
                let grown = tables.keys.len();
                let number = desc.bucket();
                let mut bucket = match tables.buckets.remove(&number) {
                    Some(bucket) => bucket,
                    None => Vec::new(),
                };
                let ghost shorter = bucket@;
                bucket.push(count);
                let ghost longer = bucket@;
                tables.buckets.insert(number, bucket);
                proof {
                    let after = tables.keys@;
                    let relisted = tables.buckets@;
                    assert(relisted.contains_key(number) && relisted[number]@ == longer);
                    assert(listing.contains_key(number) ==> listing[number]@ == shorter);
                    assert(!listing.contains_key(number) ==> shorter.len() == 0);
                    assert forall|other: u64| other != number implies (relisted.contains_key(other)
                        <==> listing.contains_key(other)) && (listing.contains_key(other)
                        ==> relisted[other] == listing[other]) by {}
                    assert forall|other: u64, place: int|
                        relisted.contains_key(other) && 0 <= place
                            < relisted[other]@.len() implies {
                        &&& (#[trigger] relisted[other]@[place]) < after.len()
                        &&& after[relisted[other]@[place] as int].desc@.bucket() == other
                    } by {
                        if other == number {
                            if place < shorter.len() {
                                assert(longer[place] == shorter[place]);
                                assert(listing[number]@[place] < before.len());
                                assert(after[shorter[place] as int]
                                    == before[shorter[place] as int]);
                            } else {
                                assert(longer[place] == count);
                            }
                        } else {
                            assert(listing[other]@[place] < before.len());
                            assert(after[listing[other]@[place] as int]
                                == before[listing[other]@[place] as int]);
                        }
                    }
                    assert forall|position: int| 0 <= position < after.len() implies listed(
                        relisted,
                        (#[trigger] after[position]).desc@.bucket(),
                        position,
                    ) by {
                        if position < before.len() {
                            assert(after[position] == before[position]);
                            let home = before[position].desc@.bucket();
                            assert(listed(listing, home, position));
                            let place = choose|place: int|
                                0 <= place < listing[home]@.len() && listing[home]@[place]
                                    == position;
                            if home == number {
                                assert(longer[place] == shorter[place]);
                                assert(relisted[number]@[place] == position);
                            } else {
                                assert(relisted[home]@[place] == position);
                            }
                        } else {
                            assert(relisted[number]@[longer.len() - 1] == position);
                        }
                    }
                    assert(buckets_wf(after, relisted));
                    assert(after.drop_last() == before);
                    assert forall|i: int, j: int|
                        0 <= i < after.len() && 0 <= j < after.len() && i
                            != j implies after[i].desc@ != after[j].desc@ by {
                        if i < before.len() {
                            assert(after[i] == before[i]);
                            assert(keys_of(before).contains_key(before[i].desc@));
                        }
                        if j < before.len() {
                            assert(after[j] == before[j]);
                            assert(keys_of(before).contains_key(before[j].desc@));
                        }
                    }
                    assert forall|i: int| 0 <= i < after.len() implies (#[trigger] after[i]).key
                        == FontKey::nth(self.owner, i as nat) by {
                        if i < before.len() {
                            assert(after[i] == before[i]);
                        }
                    }
                    assert(tables_wf(self.owner, after, tables.fonts@));
                    lemma_model_of(self.owner, after, tables.fonts@);
                    FontKey::lemma_nth(self.owner, count as nat);
                    let old_model = model_of(self.owner, before, faces);
                    let new_model = model_of(self.owner, after, tables.fonts@);
                    assert(new_model.fonts =~= old_model.fonts.insert(key, font)) by {
                        assert forall|other: FontKey|
                            new_model.fonts.contains_key(other)
                                <==> old_model.fonts.insert(key, font).contains_key(other) by {
                            key.lemma_identified(other);
                        }
                        assert forall|other: FontKey| #[trigger]
                            new_model.fonts.contains_key(other)
                                implies new_model.fonts[other] == old_model.fonts.insert(
                            key,
                            font,
                        )[other] by {
                            key.lemma_identified(other);
                        }
                    }
                    assert(new_model == old_model.with(desc@, font));
                }
                self.tables = tables;
                Some(key)
            },
        }
    }
}

} // verus!
