//! What the tagging service hands over and takes back, as plain values: pairs whose key or
//! value may be missing, and tag filters.
use vstd::prelude::*;

use super::error::{
    AwsErrorModel, ParseTagAwsError, ParseTagError, ParseTagsError, TagErrorModel,
    TagsErrorModel,
};
use super::raw::{raw_tags_view, RawTag, RawTagValue, TagKey, TagList};

verus! {

/// Model of a pair from the service.
pub open spec fn part_view(p: (Option<String>, Option<String>)) -> (Option<Seq<char>>, Option<Seq<char>>) {
    (
        match p.0 {
            Some(k) => Some(k@),
            None => None,
        },
        match p.1 {
            Some(v) => Some(v@),
            None => None,
        },
    )
}

pub open spec fn parts_view(ps: Seq<(Option<String>, Option<String>)>) -> Seq<
    (Option<Seq<char>>, Option<Seq<char>>),
> {
    ps.map_values(|p: (Option<String>, Option<String>)| part_view(p))
}

/// What a service pair becomes: a raw tag, or the part that is missing (the key first).
pub open spec fn raw_tag_of_parts(p: (Option<Seq<char>>, Option<Seq<char>>)) -> Result<
    (Seq<char>, Seq<char>),
    TagErrorModel,
> {
    match p.0 {
        None => Err(TagErrorModel::Aws(AwsErrorModel::KeyNone)),
        Some(k) => match p.1 {
            None => Err(TagErrorModel::Aws(AwsErrorModel::ValueNone { key: k })),
            Some(v) => Ok((k, v)),
        },
    }
}

/// What a list of service pairs becomes: the raw tags in order, or the first pair's error.
pub open spec fn tag_list_of_parts(ps: Seq<(Option<Seq<char>>, Option<Seq<char>>)>) -> Result<
    Seq<(Seq<char>, Seq<char>)>,
    TagsErrorModel,
>
    decreases ps.len(),
{
    if ps.len() == 0 {
        Ok(Seq::empty())
    } else {
        match tag_list_of_parts(ps.drop_last()) {
            Err(e) => Err(e),
            Ok(ts) => match raw_tag_of_parts(ps.last()) {
                Err(e) => Err(TagsErrorModel::ParseTag(e)),
                Ok(t) => Ok(ts.push(t)),
            },
        }
    }
}

impl RawTag {
    /// A raw tag from a pair as the service reports it, where key and value may be missing.
    pub fn from_service_parts(key: Option<String>, value: Option<String>) -> (r: Result<
        RawTag,
        ParseTagError,
    >)
        ensures
            match r {
                Ok(t) => raw_tag_of_parts(part_view((key, value))) == Ok::<
                    (Seq<char>, Seq<char>),
                    TagErrorModel,
                >(t@),
                Err(e) => raw_tag_of_parts(part_view((key, value))) == Err::<
                    (Seq<char>, Seq<char>),
                    TagErrorModel,
                >(e@),
            },
    {
        match key {
            None => Err(ParseTagError::Aws(ParseTagAwsError::AwsKeyNone)),
            Some(k) => match value {
                None => Err(ParseTagError::Aws(ParseTagAwsError::AwsValueNone { key: TagKey(k) })),
                Some(v) => Ok(RawTag { key: TagKey(k), value: RawTagValue(v) }),
            },
        }
    }

    /// Whether a service pair holds exactly this key and this value.
    pub fn matches_service_parts(&self, key: &Option<String>, value: &Option<String>) -> (r: bool)
        ensures
            r == (part_view((*key, *value)) == (Some(self@.0), Some(self@.1))),
    {
        match (key, value) {
            (Some(k), Some(v)) => self.key.0 == *k && self.value.0 == *v,
            _ => false,
        }
    }
}

impl TagList {
    /// A tag list from the pairs the service reports; the first incomplete pair is the error.
    pub fn from_service_parts(parts: Vec<(Option<String>, Option<String>)>) -> (r: Result<
        TagList,
        ParseTagsError,
    >)
        ensures
            match r {
                Ok(l) => tag_list_of_parts(parts_view(parts@)) == Ok::<Seq<(Seq<char>, Seq<char>)>, TagsErrorModel>(l@),
                Err(e) => tag_list_of_parts(parts_view(parts@)) == Err::<Seq<(Seq<char>, Seq<char>)>, TagsErrorModel>(e@),
            },
    {
        let ghost pv = parts_view(parts@);
        let total: usize = parts.len();
        let ghost n = pv.len();
        let mut pending = parts;
        let mut rev: Vec<(Option<String>, Option<String>)> = Vec::new();
        while pending.len() > 0
            invariant
                pending@.len() + rev@.len() == n,
                n == pv.len(),
                n == total,
                pv == parts_view(parts@),
                forall|j: int| 0 <= j < pending@.len() ==> part_view(#[trigger] pending@[j]) == pv[j],
                forall|j: int| 0 <= j < rev@.len() ==> part_view(#[trigger] rev@[j]) == pv[n - 1 - j],
            decreases pending@.len(),
        {
            let p = pending.pop().unwrap();
            rev.push(p);
        }
        let mut out: Vec<RawTag> = Vec::new();
        let mut i: usize = 0;
        assert(raw_tags_view(out@) =~= Seq::<(Seq<char>, Seq<char>)>::empty());
        assert(pv.take(0) =~= Seq::<(Option<Seq<char>>, Option<Seq<char>>)>::empty());
        while rev.len() > 0
            invariant
                i + rev@.len() == n,
                n == pv.len(),
                n == total,
                pv == parts_view(parts@),
                forall|j: int| 0 <= j < rev@.len() ==> part_view(#[trigger] rev@[j]) == pv[n - 1 - j],
                tag_list_of_parts(pv.take(i as int)) == Ok::<
                    Seq<(Seq<char>, Seq<char>)>,
                    TagsErrorModel,
                >(raw_tags_view(out@)),
            decreases rev@.len(),
        {
            let p = rev.pop().unwrap();
            let ghost prefix = pv.take(i as int);
            assert(pv.take(i + 1).drop_last() =~= prefix);
            assert(pv.take(i + 1).last() == part_view(p));
            match RawTag::from_service_parts(p.0, p.1) {
                Ok(t) => {
                    let ghost before = out@;
                    out.push(t);
                    assert(raw_tags_view(out@) =~= raw_tags_view(before).push(t@));
                },
                Err(e) => {
                    let err = ParseTagsError::ParseTag(e);
                    proof {
                        assert(tag_list_of_parts(pv.take(i + 1)) == Err::<
                            Seq<(Seq<char>, Seq<char>)>,
                            TagsErrorModel,
                        >(err@));
                        lemma_parts_err_stays(pv, (i + 1) as nat);
                        assert(pv.take(n as int) =~= pv);
                        assert(tag_list_of_parts(pv) == Err::<
                            Seq<(Seq<char>, Seq<char>)>,
                            TagsErrorModel,
                        >(err@));
                    }
                    return Err(err);
                },
            }
            i += 1;
        }
        assert(pv.take(i as int) =~= pv);
        Ok(TagList(out))
    }

    /// The filters that select resources carrying every tag of the list: each is named
    /// `tag:<key>` and holds the tag's value.
    pub fn to_filters(&self) -> (r: Vec<(String, String)>)
        ensures
            r@.len() == self@.len(),
            forall|i: int|
                0 <= i < self@.len() ==> (#[trigger] r@[i]).0@ == filter_name(self@[i].0) && r@[i].1@
                    == self@[i].1,
    {
        let mut out: Vec<(String, String)> = Vec::new();
        let mut i: usize = 0;
        while i < self.0.len()
            invariant
                0 <= i <= self.0.len(),
                out@.len() == i,
                forall|j: int|
                    0 <= j < i ==> (#[trigger] out@[j]).0@ == filter_name(self@[j].0) && out@[j].1@
                        == self@[j].1,
            decreases self.0.len() - i,
        {
            let t = &self.0[i];
            out.push((tag_filter_name(&t.key), t.value.0.clone()));
            i += 1;
        }
        out
    }
}

/// The filter name that selects by a tag key.
pub open spec fn filter_name(key: Seq<char>) -> Seq<char> {
    "tag:"@ + key
}

pub fn tag_filter_name(key: &TagKey) -> (r: String)
    ensures
        r@ == filter_name(key@),
{
    let mut s = "tag:".to_owned();
    s.append(key.0.as_str());
    s
}

proof fn lemma_parts_err_stays(ps: Seq<(Option<Seq<char>>, Option<Seq<char>>)>, k: nat)
    requires
        k <= ps.len(),
        tag_list_of_parts(ps.take(k as int)) is Err,
    ensures
        tag_list_of_parts(ps.take(ps.len() as int)) == tag_list_of_parts(ps.take(k as int)),
    decreases ps.len() - k,
{
    if k < ps.len() {
        assert(ps.take((k + 1) as int).drop_last() =~= ps.take(k as int));
        lemma_parts_err_stays(ps, (k + 1) as nat);
    }
}

} // verus!
