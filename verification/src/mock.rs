use vstd::prelude::*;

verus! {

/// A capture sink: instead of performing I/O, it records the values it
/// receives, in order, for a test harness to inspect after the channel
/// is closed. Its view is the sequence of recorded values.
#[derive(Debug)]
pub struct MockStdout(Vec<String>);

impl View for MockStdout {
    type V = Seq<Seq<char>>;

    closed spec fn view(&self) -> Seq<Seq<char>> {
        self.0.deep_view()
    }
}

impl MockStdout {
    /// A fresh capture sink that has recorded nothing.
    pub fn new() -> (r: Self)
        ensures
            r@ == Seq::<Seq<char>>::empty(),
    {
        let r = MockStdout(Vec::new());
        proof {
            assert(r@ =~= Seq::<Seq<char>>::empty());
        }
        r
    }

    /// Appends one value at the end of the record.
    pub fn push(&mut self, item: String)
        ensures
            final(self)@ == old(self)@.push(item@),
    {
        let ghost before = self@;
        self.0.push(item);
        proof {
            assert(self@ =~= before.push(item@));
        }
    }

    /// How many values have been recorded.
    pub fn len(&self) -> (r: usize)
        ensures
            r == self@.len(),
    {
        self.0.len()
    }

    /// The `i`-th recorded value, in delivery order.
    pub fn get(&self, i: usize) -> (r: &String)
        requires
            i < self@.len(),
        ensures
            r@ == self@[i as int],
    {
        &self.0[i]
    }
}

impl Default for MockStdout {
    fn default() -> (r: Self)
        ensures
            r@ == Seq::<Seq<char>>::empty(),
    {
        MockStdout::new()
    }
}

} // verus!
