use vstd::prelude::*;

verus! {

/// The label table: for each label, the index of an instruction. A label
/// that is entered twice keeps the index that was entered last.
#[derive(Debug, PartialEq, Eq, Clone)]
pub struct LabelTable {
    entries: Vec<(String, usize)>,
}

/// The table that a list of entries makes up; later entries win.
pub open spec fn table_of(entries: Seq<(String, usize)>) -> Map<Seq<char>, usize>
    decreases entries.len(),
{
    if entries.len() == 0 {
        Map::empty()
    } else {
        table_of(entries.drop_last()).insert(entries.last().0@, entries.last().1)
    }
}

impl View for LabelTable {
    type V = Map<Seq<char>, usize>;

    closed spec fn view(&self) -> Map<Seq<char>, usize> {
        table_of(self.entries@)
    }
}

impl LabelTable {
    /// A table without labels.
    pub fn new() -> (r: LabelTable)
        ensures
            r@ == Map::<Seq<char>, usize>::empty(),
    {
        LabelTable { entries: Vec::new() }
    }

    /// Enters a label with the index it stands for.
    pub fn insert(&mut self, label: String, index: usize)
        ensures
            final(self)@ == old(self)@.insert(label@, index),
    {
        self.entries.push((label, index));
        assert(self.entries@.drop_last() =~= old(self).entries@);
    }

    /// The index that a label stands for, if the table holds the label.
    pub fn get(&self, label: &str) -> (r: Option<usize>)
        ensures
            r == if self@.dom().contains(label@) {
                Some(self@[label@])
            } else {
                None
            },
    {
        let mut k: usize = self.entries.len();
        assert(self.entries@.take(k as int) =~= self.entries@);
        while k > 0
            invariant
                k <= self.entries.len(),
                self@.dom().contains(label@) <==> table_of(self.entries@.take(k as int)).dom().contains(
                    label@,
                ),
                self@.dom().contains(label@) ==> self@[label@] == table_of(
                    self.entries@.take(k as int),
                )[label@],
            decreases k,
        {
            assert(self.entries@.take(k as int).drop_last() =~= self.entries@.take(k - 1));
            k -= 1;
            if same_text(self.entries[k].0.as_str(), label) {
                return Some(self.entries[k].1);
            }
        }
        None
    }

    /// Whether the table holds a label.
    pub fn contains(&self, label: &str) -> (r: bool)
        ensures
            r == self@.dom().contains(label@),
    {
        self.get(label).is_some()
    }
}

/// Whether two texts are the same.
pub fn same_text(a: &str, b: &str) -> (r: bool)
    ensures
        r == (a@ == b@),
{
    let left = crate::text::chars_of(a);
    crate::text::spells(&left, b)
}

} // verus!
