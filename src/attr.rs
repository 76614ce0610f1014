//! Extraction of named string values from attribute entries.
use vstd::prelude::*;

use crate::model::{Lit, MetaItem, NestedMetaItem, WrapError, WrapErrorView};
use crate::text::{owned, same_text};

verus! {

/// The outcome of scanning attributes for one key.
pub enum Lookup {
    /// An entry under the namespace is not a name/value pair, or the value
    /// paired with the key is not a string literal.
    Malformed,
    /// No entry under the namespace pairs the key with a value.
    Absent,
    /// The value of the last pair that names the key.
    Found(Seq<char>),
}

/// The scan after one more nested entry of a list under the namespace.
pub open spec fn scan_entry(acc: Lookup, item: NestedMetaItem, key: Seq<char>) -> Lookup {
    match acc {
        Lookup::Malformed => Lookup::Malformed,
        _ => match item {
            NestedMetaItem::MetaItem(MetaItem::NameValue(name, lit)) => {
                if name@ == key {
                    match lit {
                        Lit::Str(v) => Lookup::Found(v@),
                        Lit::Other(_) => Lookup::Malformed,
                    }
                } else {
                    acc
                }
            },
            _ => Lookup::Malformed,
        },
    }
}

/// The scan after the nested entries `items`, in order.
pub open spec fn scan_entries(acc: Lookup, items: Seq<NestedMetaItem>, key: Seq<char>) -> Lookup
    decreases items.len(),
{
    if items.len() == 0 {
        acc
    } else {
        scan_entry(scan_entries(acc, items.drop_last(), key), items.last(), key)
    }
}

/// What looking up `key` under namespace `ns` in `attrs` yields: every list
/// attribute named `ns` is scanned in order, and attributes of any other
/// name or form are ignored.
pub open spec fn lookup(attrs: Seq<MetaItem>, ns: Seq<char>, key: Seq<char>) -> Lookup
    decreases attrs.len(),
{
    if attrs.len() == 0 {
        Lookup::Absent
    } else {
        let acc = lookup(attrs.drop_last(), ns, key);
        match attrs.last() {
            MetaItem::List(name, items) => {
                if name@ == ns {
                    scan_entries(acc, items@, key)
                } else {
                    acc
                }
            },
            _ => acc,
        }
    }
}

/// The scan state that an optional value found so far stands for.
pub open spec fn found_or_absent(v: Option<String>) -> Lookup {
    match v {
        Some(s) => Lookup::Found(s@),
        None => Lookup::Absent,
    }
}

proof fn lemma_scan_entries_malformed_stays(acc: Lookup, items: Seq<NestedMetaItem>, key: Seq<char>, j: int, k: int)
    requires
        0 <= j <= k <= items.len(),
        scan_entries(acc, items.take(j), key) is Malformed,
    ensures
        scan_entries(acc, items.take(k), key) is Malformed,
    decreases k - j,
{
    if k > j {
        lemma_scan_entries_malformed_stays(acc, items, key, j, k - 1);
        assert(items.take(k).drop_last() =~= items.take(k - 1));
    }
}

proof fn lemma_lookup_malformed_stays(attrs: Seq<MetaItem>, ns: Seq<char>, key: Seq<char>, i: int, k: int)
    requires
        0 <= i <= k <= attrs.len(),
        lookup(attrs.take(i), ns, key) is Malformed,
    ensures
        lookup(attrs.take(k), ns, key) is Malformed,
    decreases k - i,
{
    if k > i {
        lemma_lookup_malformed_stays(attrs, ns, key, i, k - 1);
        let t = attrs.take(k);
        assert(t.drop_last() =~= attrs.take(k - 1));
        if let MetaItem::List(name, items) = t.last() {
            if name@ == ns {
                lemma_scan_entries_malformed_stays(lookup(t.drop_last(), ns, key), items@, key, 0, items@.len() as int);
                assert(items@.take(0) =~= Seq::<NestedMetaItem>::empty());
                assert(items@.take(items@.len() as int) =~= items@);
            }
        }
    }
}

/// Looks up `key` under namespace `namespace` in the attributes `attrs` of
/// `owner`. Every pair that names the key is read, and the last one read
/// gives the value. A malformed entry under the namespace aborts the lookup.
pub fn extract(owner: &String, attrs: &Vec<MetaItem>, namespace: &str, key: &str) -> (r: Result<Option<String>, WrapError>)
    ensures
        match lookup(attrs@, namespace@, key@) {
            Lookup::Malformed => r matches Err(e) && e@ == (WrapErrorView::AttributeShape { owner: owner@, key: key@ }),
            Lookup::Absent => r matches Ok(None),
            Lookup::Found(v) => r matches Ok(Some(s)) && s@ == v,
        },
{
    let mut found: Option<String> = None;
    let mut i: usize = 0;
    while i < attrs.len()
        invariant
            i <= attrs@.len(),
            lookup(attrs@.take(i as int), namespace@, key@) == found_or_absent(found),
        decreases attrs@.len() - i,
    {
        proof {
            assert(attrs@.take(i + 1).drop_last() =~= attrs@.take(i as int));
        }
        if let MetaItem::List(name, items) = &attrs[i] {
            if same_text(name.as_str(), namespace) {
                let ghost acc = found_or_absent(found);
                let mut j: usize = 0;
                while j < items.len()
                    invariant
                        j <= items@.len(),
                        i < attrs@.len(),
                        attrs@[i as int] matches MetaItem::List(nm, its) && nm@ == namespace@ && its@ == items@,
                        acc == lookup(attrs@.take(i as int), namespace@, key@),
                        scan_entries(acc, items@.take(j as int), key@) == found_or_absent(found),
                    decreases items@.len() - j,
                {
                    proof {
                        assert(items@.take(j + 1).drop_last() =~= items@.take(j as int));
                    }
                    let malformed = match &items[j] {
                        NestedMetaItem::MetaItem(MetaItem::NameValue(n, lit)) => {
                            if same_text(n.as_str(), key) {
                                match lit {
                                    Lit::Str(v) => {
                                        found = Some(v.clone());
                                        false
                                    },
                                    Lit::Other(_) => true,
                                }
                            } else {
                                false
                            }
                        },
                        _ => true,
                    };
                    if malformed {
                        proof {
                            lemma_scan_entries_malformed_stays(acc, items@, key@, j + 1, items@.len() as int);
                            assert(items@.take(items@.len() as int) =~= items@);
                            assert(attrs@.take(i + 1).drop_last() =~= attrs@.take(i as int));
                            assert(attrs@.take(i + 1).last() == attrs@[i as int]);
                            lemma_lookup_malformed_stays(attrs@, namespace@, key@, i + 1, attrs@.len() as int);
                            assert(attrs@.take(attrs@.len() as int) =~= attrs@);
                        }
                        return Err(WrapError::AttributeShape { owner: owner.clone(), key: owned(key) });
                    }
                    j = j + 1;
                }
                proof {
                    assert(items@.take(items@.len() as int) =~= items@);
                }
            }
        }
        i = i + 1;
    }
    proof {
        assert(attrs@.take(attrs@.len() as int) =~= attrs@);
    }
    Ok(found)
}

/// Like `extract`, but an absent key aborts with `MissingAttribute`.
pub fn extract_required(owner: &String, attrs: &Vec<MetaItem>, namespace: &str, key: &str) -> (r: Result<String, WrapError>)
    ensures
        match lookup(attrs@, namespace@, key@) {
            Lookup::Malformed => r matches Err(e) && e@ == (WrapErrorView::AttributeShape { owner: owner@, key: key@ }),
            Lookup::Absent => r matches Err(e) && e@ == (WrapErrorView::MissingAttribute { owner: owner@, key: key@ }),
            Lookup::Found(v) => r matches Ok(s) && s@ == v,
        },
{
    match extract(owner, attrs, namespace, key) {
        Ok(Some(v)) => Ok(v),
        Ok(None) => Err(WrapError::MissingAttribute { owner: owner.clone(), key: owned(key) }),
        Err(e) => Err(e),
    }
}

} // verus!
