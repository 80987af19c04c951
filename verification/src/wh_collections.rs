//! The list of a user's collections, and the lookup of one by its label.

use vstd::prelude::*;

verus! {

/// One collection as the service lists it.
#[derive(Clone, Debug, PartialEq, Eq)]
pub struct CollectionData {
    pub id: i32,
    pub label: String,
    pub views: i32,
    pub public: i32,
    pub count: i32,
}

/// The answer to a request for a user's collections.
#[derive(Clone, Debug, PartialEq, Eq)]
pub struct Collections {
    pub data: Vec<CollectionData>,
}

/// Whether `i` is the first position of `data` whose label is exactly `label`.
pub open spec fn is_first_match(data: Seq<CollectionData>, label: Seq<char>, i: int) -> bool {
    &&& 0 <= i < data.len()
    &&& data[i].label@ == label
    &&& forall|j: int| 0 <= j < i ==> data[j].label@ != label
}

/// Whether some entry of `data` carries exactly `label`.
pub open spec fn has_label(data: Seq<CollectionData>, label: Seq<char>) -> bool {
    exists|i: int| 0 <= i < data.len() && data[i].label@ == label
}

/// The id of the first entry of `data` labelled `label`, if there is one.
pub open spec fn first_id(data: Seq<CollectionData>, label: Seq<char>) -> Option<i32>
    decreases data.len(),
{
    if data.len() == 0 {
        None
    } else if data[0].label@ == label {
        Some(data[0].id)
    } else {
        first_id(data.subrange(1, data.len() as int), label)
    }
}

/// `first_id` finds an entry exactly when one carries the label, and then it
/// is the earliest such entry.
pub proof fn lemma_first_id(data: Seq<CollectionData>, label: Seq<char>)
    ensures
        first_id(data, label) is None <==> !has_label(data, label),
        first_id(data, label) matches Some(id) ==> exists|i: int|
            is_first_match(data, label, i) && data[i].id == id,
    decreases data.len(),
{
    if data.len() == 0 {
    } else if data[0].label@ == label {
        assert(is_first_match(data, label, 0));
    } else {
        let rest = data.subrange(1, data.len() as int);
        lemma_first_id(rest, label);
        if has_label(data, label) {
            let i = choose|i: int| 0 <= i < data.len() && data[i].label@ == label;
            assert(rest[i - 1].label@ == label);
        }
        if has_label(rest, label) {
            let i = choose|i: int| 0 <= i < rest.len() && rest[i].label@ == label;
            assert(data[i + 1].label@ == label);
        }
        if let Some(id) = first_id(rest, label) {
            let i = choose|i: int| is_first_match(rest, label, i) && rest[i].id == id;
            assert forall|j: int| 0 <= j < i + 1 implies data[j].label@ != label by {
                if j > 0 {
                    assert(rest[j - 1].label@ != label);
                }
            }
            assert(is_first_match(data, label, i + 1) && data[i + 1].id == id);
        }
    }
}

impl Collections {
    /// A list without entries, which stands in for an answer that could not
    /// be had.
    pub fn empty() -> (r: Self)
        ensures
            r.data@ == Seq::<CollectionData>::empty(),
    {
        Collections { data: Vec::new() }
    }

    /// The answer to use for a request: the one that arrived, or the empty
    /// list where none did.
    pub fn or_empty(fetched: Option<Collections>) -> (r: Self)
        ensures
            fetched matches Some(c) ==> r == c,
            fetched is None ==> r.data@ == Seq::<CollectionData>::empty(),
    {
        match fetched {
            Some(c) => c,
            None => Collections::empty(),
        }
    }

    /// Looks a collection up by its label. The comparison is exact, so case
    /// matters, and of several entries with the label the first one counts.
    pub fn find_id(&self, label: &str) -> (r: Option<i32>)
        ensures
            r == first_id(self.data@, label@),
            r is None <==> !has_label(self.data@, label@),
            r matches Some(id) ==> exists|i: int|
                is_first_match(self.data@, label@, i) && self.data@[i].id == id,
    {
        let wanted = String::from_str(label);
        let mut i: usize = 0;
        assert(self.data@.subrange(0, self.data@.len() as int) =~= self.data@);
        while i < self.data.len()
            invariant
                i <= self.data.len(),
                wanted@ == label@,
                first_id(self.data@, label@) == first_id(
                    self.data@.subrange(i as int, self.data@.len() as int),
                    label@,
                ),
            decreases self.data.len() - i,
        {
            let ghost rest = self.data@.subrange(i as int, self.data@.len() as int);
            assert(rest[0] == self.data@[i as int]);
            assert(rest.subrange(1, rest.len() as int) =~= self.data@.subrange(
                i as int + 1,
                self.data@.len() as int,
            ));
            if self.data[i].label == wanted {
                proof {
                    lemma_first_id(self.data@, label@);
                }
                return Some(self.data[i].id);
            }
            i += 1;
        }
        proof {
            lemma_first_id(self.data@, label@);
        }
        None
    }
}

} // verus!
