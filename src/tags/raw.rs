//! The wire unit: a key, a raw value, the pair of them, and an ordered list of pairs.
use vstd::prelude::*;

verus! {

/// The identifier of a tag.
#[derive(Debug)]
pub struct TagKey(pub String);

/// The wire form of exactly one tag value.
#[derive(Debug)]
pub struct RawTagValue(pub String);

impl View for TagKey {
    type V = Seq<char>;

    open spec fn view(&self) -> Seq<char> {
        self.0@
    }
}

impl View for RawTagValue {
    type V = Seq<char>;

    open spec fn view(&self) -> Seq<char> {
        self.0@
    }
}

impl TagKey {
    pub fn new(value: String) -> (r: Self)
        ensures
            r@ == value@,
    {
        TagKey(value)
    }

    pub fn as_str(&self) -> (r: &str)
        ensures
            r@ == self@,
    {
        self.0.as_str()
    }

    pub fn into_string(self) -> (r: String)
        ensures
            r@ == self@,
    {
        self.0
    }
}

impl RawTagValue {
    pub fn new(value: String) -> (r: Self)
        ensures
            r@ == value@,
    {
        RawTagValue(value)
    }

    pub fn as_str(&self) -> (r: &str)
        ensures
            r@ == self@,
    {
        self.0.as_str()
    }

    pub fn into_string(self) -> (r: String)
        ensures
            r@ == self@,
    {
        self.0
    }
}

impl PartialEq for TagKey {
    fn eq(&self, other: &TagKey) -> (r: bool)
        ensures
            r == (self@ == other@),
    {
        self.0 == other.0
    }
}

impl vstd::std_specs::cmp::PartialEqSpecImpl for TagKey {
    open spec fn obeys_eq_spec() -> bool {
        true
    }

    open spec fn eq_spec(&self, other: &TagKey) -> bool {
        self@ == other@
    }
}

impl Eq for TagKey {}

impl Clone for TagKey {
    fn clone(&self) -> (r: Self)
        ensures
            r == *self,
    {
        TagKey(self.0.clone())
    }
}

impl Clone for RawTagValue {
    fn clone(&self) -> (r: Self)
        ensures
            r == *self,
    {
        RawTagValue(self.0.clone())
    }
}

impl Clone for RawTag {
    fn clone(&self) -> (r: Self)
        ensures
            r == *self,
    {
        RawTag { key: self.key.clone(), value: self.value.clone() }
    }
}

impl PartialEq for RawTagValue {
    fn eq(&self, other: &RawTagValue) -> (r: bool)
        ensures
            r == (self@ == other@),
    {
        self.0 == other.0
    }
}

impl vstd::std_specs::cmp::PartialEqSpecImpl for RawTagValue {
    open spec fn obeys_eq_spec() -> bool {
        true
    }

    open spec fn eq_spec(&self, other: &RawTagValue) -> bool {
        self@ == other@
    }
}

impl Eq for RawTagValue {}

/// One (key, value) pair as exchanged with the tagging service.
#[derive(Debug)]
pub struct RawTag {
    pub key: TagKey,
    pub value: RawTagValue,
}

impl View for RawTag {
    type V = (Seq<char>, Seq<char>);

    open spec fn view(&self) -> (Seq<char>, Seq<char>) {
        (self.key@, self.value@)
    }
}

impl RawTag {
    pub fn new(key: String, value: String) -> (r: Self)
        ensures
            r@ == (key@, value@),
    {
        RawTag { key: TagKey(key), value: RawTagValue(value) }
    }

    pub fn from_parts(key: TagKey, value: RawTagValue) -> (r: Self)
        ensures
            r@ == (key@, value@),
    {
        RawTag { key, value }
    }

    pub fn key(&self) -> (r: &TagKey)
        ensures
            r@ == self@.0,
    {
        &self.key
    }

    pub fn value(&self) -> (r: &RawTagValue)
        ensures
            r@ == self@.1,
    {
        &self.value
    }
}

impl PartialEq for RawTag {
    fn eq(&self, other: &RawTag) -> (r: bool)
        ensures
            r == (self@ == other@),
    {
        self.key == other.key && self.value == other.value
    }
}

impl vstd::std_specs::cmp::PartialEqSpecImpl for RawTag {
    open spec fn obeys_eq_spec() -> bool {
        true
    }

    open spec fn eq_spec(&self, other: &RawTag) -> bool {
        self@ == other@
    }
}

impl Eq for RawTag {}

/// The views of a sequence of raw tags.
pub open spec fn raw_tags_view(tags: Seq<RawTag>) -> Seq<(Seq<char>, Seq<char>)> {
    tags.map_values(|t: RawTag| t@)
}

/// The position of the first pair whose key is `key`, if there is one.
pub open spec fn first_index_of(tags: Seq<(Seq<char>, Seq<char>)>, key: Seq<char>) -> Option<int>
    decreases tags.len(),
{
    if tags.len() == 0 {
        None
    } else if tags[0].0 == key {
        Some(0)
    } else {
        match first_index_of(tags.drop_first(), key) {
            Some(i) => Some(i + 1),
            None => None,
        }
    }
}

/// The value of the first pair whose key is `key`, if there is one.
pub open spec fn lookup(tags: Seq<(Seq<char>, Seq<char>)>, key: Seq<char>) -> Option<Seq<char>> {
    match first_index_of(tags, key) {
        Some(i) => Some(tags[i].1),
        None => None,
    }
}

pub proof fn lemma_first_index_of(tags: Seq<(Seq<char>, Seq<char>)>, key: Seq<char>)
    ensures
        match first_index_of(tags, key) {
            Some(i) => 0 <= i < tags.len() && tags[i].0 == key && forall|j: int|
                0 <= j < i ==> tags[j].0 != key,
            None => forall|j: int| 0 <= j < tags.len() ==> tags[j].0 != key,
        },
    decreases tags.len(),
{
    if tags.len() > 0 {
        lemma_first_index_of(tags.drop_first(), key);
        if tags[0].0 != key {
            match first_index_of(tags.drop_first(), key) {
                Some(i) => {
                    assert forall|j: int| 0 <= j < i + 1 implies tags[j].0 != key by {
                        if j > 0 {
                            assert(tags[j] == tags.drop_first()[j - 1]);
                        }
                    }
                },
                None => {
                    assert forall|j: int| 0 <= j < tags.len() implies tags[j].0 != key by {
                        if j > 0 {
                            assert(tags[j] == tags.drop_first()[j - 1]);
                        }
                    }
                },
            }
        }
    }
}

/// The unique characterisation of the first position of a key.
pub proof fn lemma_first_index_of_is(tags: Seq<(Seq<char>, Seq<char>)>, key: Seq<char>, i: int)
    requires
        0 <= i < tags.len(),
        tags[i].0 == key,
        forall|j: int| 0 <= j < i ==> tags[j].0 != key,
    ensures
        first_index_of(tags, key) == Some(i),
{
    lemma_first_index_of(tags, key);
    match first_index_of(tags, key) {
        Some(k) => {
            if k < i {
                assert(tags[k].0 != key);
            } else if k > i {
                assert(tags[i].0 != key);
            }
        },
        None => {
            assert(tags[i].0 != key);
        },
    }
}

/// An ordered list of raw tags. Lookup is by key, first match first; appending never
/// removes or merges entries.
#[derive(Debug, Clone)]
pub struct TagList(pub Vec<RawTag>);

impl View for TagList {
    type V = Seq<(Seq<char>, Seq<char>)>;

    open spec fn view(&self) -> Seq<(Seq<char>, Seq<char>)> {
        raw_tags_view(self.0@)
    }
}

impl TagList {
    pub fn new() -> (r: Self)
        ensures
            r@ == Seq::<(Seq<char>, Seq<char>)>::empty(),
    {
        let r = TagList(Vec::new());
        assert(r@ =~= Seq::<(Seq<char>, Seq<char>)>::empty());
        r
    }

    pub fn push(&mut self, tag: RawTag)
        ensures
            final(self)@ == old(self)@.push(tag@),
    {
        self.0.push(tag);
        assert(self@ =~= old(self)@.push(tag@));
    }

    pub fn extend(&mut self, tags: Vec<RawTag>)
        ensures
            final(self)@ == old(self)@ + raw_tags_view(tags@),
    {
        let ghost added = tags@;
        let mut tags = tags;
        self.0.append(&mut tags);
        assert(self@ =~= old(self)@ + raw_tags_view(added));
    }

    pub fn join(&mut self, other: Self)
        ensures
            final(self)@ == old(self)@ + other@,
    {
        self.extend(other.0);
    }

    pub fn from_vec(value: Vec<RawTag>) -> (r: Self)
        ensures
            r@ == raw_tags_view(value@),
    {
        TagList(value)
    }

    pub fn get(&self, key: TagKey) -> (r: Option<&RawTag>)
        ensures
            match r {
                Some(t) => first_index_of(self@, key@) is Some && t@ == self@[first_index_of(
                    self@,
                    key@,
                )->Some_0],
                None => first_index_of(self@, key@) is None,
            },
    {
        let mut i: usize = 0;
        while i < self.0.len()
            invariant
                0 <= i <= self.0.len(),
                forall|j: int| 0 <= j < i ==> self@[j].0 != key@,
            decreases self.0.len() - i,
        {
            if self.0[i].key == key {
                proof {
                    lemma_first_index_of_is(self@, key@, i as int);
                }
                return Some(&self.0[i]);
            }
            i += 1;
        }
        proof {
            lemma_first_index_of(self@, key@);
            if let Some(k) = first_index_of(self@, key@) {
                assert(self@[k].0 != key@);
            }
        }
        None
    }

    pub fn into_vec(self) -> (r: Vec<RawTag>)
        ensures
            raw_tags_view(r@) == self@,
    {
        self.0
    }

    pub fn as_slice(&self) -> (r: &[RawTag])
        ensures
            raw_tags_view(r@) == self@,
    {
        self.0.as_slice()
    }

    pub fn len(&self) -> (r: usize)
        ensures
            r == self@.len(),
    {
        self.0.len()
    }
}

impl PartialEq for TagList {
    fn eq(&self, other: &TagList) -> (r: bool)
        ensures
            r == (self@ == other@),
    {
        if self.0.len() != other.0.len() {
            assert(self@.len() != other@.len());
            return false;
        }
        let mut i: usize = 0;
        while i < self.0.len()
            invariant
                0 <= i <= self.0.len(),
                self.0.len() == other.0.len(),
                forall|j: int| 0 <= j < i ==> self@[j] == other@[j],
            decreases self.0.len() - i,
        {
            if self.0[i] != other.0[i] {
                assert(self@[i as int] != other@[i as int]);
                return false;
            }
            i += 1;
        }
        assert(self@ =~= other@);
        true
    }
}

impl vstd::std_specs::cmp::PartialEqSpecImpl for TagList {
    open spec fn obeys_eq_spec() -> bool {
        true
    }

    open spec fn eq_spec(&self, other: &TagList) -> bool {
        self@ == other@
    }
}

impl Eq for TagList {}

} // verus!
