//! Copying and comparing values by their models.
//!
//! The verifier does not look inside `String` or `Vec`: two such values are
//! known to it only through their models.  The traits here give every type of
//! the library a copy and a comparison whose contracts speak of the model.

use vstd::prelude::*;

verus! {

/// A value that has validity conditions and can be copied model-for-model.
pub trait Snapshot: DeepView + Sized {
    /// The representation invariant of the value.
    spec fn wf(&self) -> bool;

    /// An independent copy with the same model.
    fn snapshot(&self) -> (copy: Self)
        requires
            self.wf(),
        ensures
            copy.wf(),
            copy.deep_view() == self.deep_view(),
    ;
}

/// A value that can be compared with another by model.
pub trait SameModel: DeepView + Sized {
    /// Whether both values have the same model.
    fn same(&self, other: &Self) -> (b: bool)
        ensures
            b == (self.deep_view() == other.deep_view()),
    ;
}

impl Snapshot for String {
    open spec fn wf(&self) -> bool {
        true
    }

    fn snapshot(&self) -> (copy: Self) {
        self.clone()
    }
}

impl SameModel for String {
    fn same(&self, other: &Self) -> (b: bool) {
        *self == *other
    }
}

/// Whether every element of `v` is valid.
pub open spec fn all_wf<T: Snapshot>(v: Seq<T>) -> bool {
    forall|i: int| 0 <= i < v.len() ==> (#[trigger] v[i]).wf()
}

/// Whether an optional value is valid where it is present.
pub open spec fn option_wf<T: Snapshot>(o: Option<T>) -> bool {
    match o {
        Some(t) => t.wf(),
        None => true,
    }
}

/// Copies an optional value.
pub fn snapshot_option<T: Snapshot>(o: &Option<T>) -> (copy: Option<T>)
    requires
        option_wf(*o),
    ensures
        option_wf(copy),
        copy.deep_view() == o.deep_view(),
{
    match o {
        Some(t) => Some(t.snapshot()),
        None => None,
    }
}

/// Copies a list, element by element.
pub fn snapshot_list<T: Snapshot>(v: &Vec<T>) -> (copy: Vec<T>)
    requires
        all_wf(v@),
    ensures
        all_wf(copy@),
        copy.deep_view() == v.deep_view(),
{
    let mut copy: Vec<T> = Vec::new();
    let mut i: usize = 0;
    while i < v.len()
        invariant
            all_wf(v@),
            i <= v.len(),
            copy.len() == i,
            all_wf(copy@),
            forall|j: int| 0 <= j < i ==> (#[trigger] copy[j]).deep_view() == v[j].deep_view(),
        decreases v.len() - i,
    {
        copy.push(v[i].snapshot());
        i = i + 1;
    }
    assert(copy.deep_view() =~= v.deep_view());
    copy
}

/// Compares two optional values by model.
pub fn same_option<T: SameModel>(a: &Option<T>, b: &Option<T>) -> (r: bool)
    ensures
        r == (a.deep_view() == b.deep_view()),
{
    match (a, b) {
        (Some(x), Some(y)) => x.same(y),
        (None, None) => true,
        _ => false,
    }
}

/// Compares two lists by model: same length, and equal element by element.
pub fn same_list<T: SameModel>(a: &Vec<T>, b: &Vec<T>) -> (r: bool)
    ensures
        r == (a.deep_view() == b.deep_view()),
{
    if a.len() != b.len() {
        assert(a.deep_view().len() != b.deep_view().len());
        return false;
    }
    let mut i: usize = 0;
    while i < a.len()
        invariant
            a.len() == b.len(),
            i <= a.len(),
            forall|j: int| 0 <= j < i ==> (#[trigger] a[j]).deep_view() == b[j].deep_view(),
        decreases a.len() - i,
    {
        if !a[i].same(&b[i]) {
            assert(a.deep_view()[i as int] != b.deep_view()[i as int]);
            return false;
        }
        i = i + 1;
    }
    assert(a.deep_view() =~= b.deep_view());
    true
}

} // verus!
