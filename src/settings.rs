use vstd::prelude::*;
use crate::cstr::nul_free;

verus! {

/// The key/value pairs of a list of options, as text.
pub open spec fn pairs_view(pairs: Seq<(String, String)>) -> Seq<(Seq<char>, Seq<char>)> {
    pairs.map_values(|p: (String, String)| (p.0@, p.1@))
}

/// Device options: key/value pairs, in the order in which they were
/// appended, handed to the native layer when a device is opened.
pub struct Settings {
    options: Vec<(String, String)>,
}

impl View for Settings {
    type V = Seq<(Seq<char>, Seq<char>)>;

    closed spec fn view(&self) -> Seq<(Seq<char>, Seq<char>)> {
        pairs_view(self.options@)
    }
}

impl Settings {
    /// Creates an empty list of options.
    pub fn new() -> (r: Settings)
        ensures
            r@ == Seq::<(Seq<char>, Seq<char>)>::empty(),
    {
        let r = Settings { options: Vec::new() };
        assert(r@ =~= Seq::<(Seq<char>, Seq<char>)>::empty());
        r
    }

    /// Appends a key/value pair at the end of the list. The list keeps copies,
    /// so `key` and `value` need not outlive the call.
    pub fn append(&mut self, key: &str, value: &str)
        requires
            nul_free(key@),
            nul_free(value@),
        ensures
            final(self)@ == old(self)@.push((key@, value@)),
    {
        let k = key.to_owned();
        let v = value.to_owned();
        self.options.push((k, v));
        assert(self@ =~= old(self)@.push((key@, value@)));
    }

    /// The number of pairs in the list.
    pub fn len(&self) -> (r: usize)
        ensures
            r == self@.len(),
    {
        self.options.len()
    }

    /// Whether the list holds no pair.
    pub fn is_empty(&self) -> (r: bool)
        ensures
            r == (self@.len() == 0),
    {
        self.options.len() == 0
    }

    /// The pairs that the native option list must be built from: `None`, a
    /// null list, when there is no pair; else every pair, in order.
    pub fn as_ao_option(&self) -> (r: Option<&Vec<(String, String)>>)
        ensures
            r is None <==> self@.len() == 0,
            r matches Some(v) ==> pairs_view(v@) == self@,
    {
        if self.options.len() == 0 {
            None
        } else {
            Some(&self.options)
        }
    }
}

impl Default for Settings {
    fn default() -> (r: Settings)
        ensures
            r@ == Seq::<(Seq<char>, Seq<char>)>::empty(),
    {
        Settings::new()
    }
}

/// The list that a new `Settings` holds after `append` was called with each
/// of `pairs` in turn.
pub open spec fn after_appends(pairs: Seq<(Seq<char>, Seq<char>)>) -> Seq<(Seq<char>, Seq<char>)>
    decreases pairs.len(),
{
    if pairs.len() == 0 {
        Seq::empty()
    } else {
        after_appends(pairs.drop_last()).push(pairs.last())
    }
}

/// After N appends to a new list the list holds those N pairs in order, so
/// it is empty, and no option list is handed to the native layer, exactly
/// when N is zero.
pub proof fn lemma_appends_keep_pairs(pairs: Seq<(Seq<char>, Seq<char>)>)
    ensures
        after_appends(pairs) == pairs,
        after_appends(pairs).len() == 0 <==> pairs.len() == 0,
    decreases pairs.len(),
{
    if pairs.len() > 0 {
        lemma_appends_keep_pairs(pairs.drop_last());
        assert(pairs.drop_last().push(pairs.last()) =~= pairs);
    }
}

} // verus!
