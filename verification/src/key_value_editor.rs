//! An editor of key/value pairs (the metadata of a transaction).
use vstd::prelude::*;

verus! {

/// What the user can do in the editor.
pub enum Message {
    /// The key of the pair at this index now reads this text.
    KeyInput(usize, String),
    /// The value of the pair at this index now reads this text (the text of
    /// its multi-line editor after the user's edit).
    ValueInput(usize, String),
    /// Append an empty pair.
    AddPair,
    /// The delete button of the pair at this index.
    DeletePair(usize),
}

/// The views of a list of pairs.
pub open spec fn pair_views(pairs: Seq<(String, String)>) -> Seq<(Seq<char>, Seq<char>)> {
    pairs.map_values(|p: (String, String)| (p.0@, p.1@))
}

/// True when the editor can take `message`. The delete button's bounds test
/// lets through only an index beyond the last pair, where the removal itself
/// would fail; so a delete is defined only on a non-empty editor, for an
/// index of a pair, and then changes nothing.
pub open spec fn message_defined(pairs: Seq<(Seq<char>, Seq<char>)>, message: Message) -> bool {
    message matches Message::DeletePair(index) ==> pairs.len() > 0 && index < pairs.len()
}

/// The pairs after `message`.
pub open spec fn after_message(pairs: Seq<(Seq<char>, Seq<char>)>, message: Message) -> Seq<(Seq<char>, Seq<char>)> {
    match message {
        Message::KeyInput(index, key) => if index < pairs.len() {
            pairs.update(index as int, (key@, pairs[index as int].1))
        } else {
            pairs
        },
        Message::ValueInput(index, value) => if index < pairs.len() {
            pairs.update(index as int, (pairs[index as int].0, value@))
        } else {
            pairs
        },
        Message::AddPair => pairs.push((Seq::empty(), Seq::empty())),
        Message::DeletePair(_) => pairs,
    }
}

/// An editor of key/value pairs, in the order they were given.
pub struct KeyValueEditor {
    inputs: Vec<(String, String)>,
}

impl View for KeyValueEditor {
    type V = Seq<(Seq<char>, Seq<char>)>;

    closed spec fn view(&self) -> Seq<(Seq<char>, Seq<char>)> {
        pair_views(self.inputs@)
    }
}

impl KeyValueEditor {
    /// An editor of these pairs.
    pub fn new(key_value_pairs: Vec<(String, String)>) -> (r: Self)
        ensures
            r@ == pair_views(key_value_pairs@),
    {
        KeyValueEditor { inputs: key_value_pairs }
    }

    /// An editor without pairs.
    pub fn default() -> (r: Self)
        ensures
            r@ == Seq::<(Seq<char>, Seq<char>)>::empty(),
    {
        let r = KeyValueEditor { inputs: Vec::new() };
        assert(r@ =~= Seq::<(Seq<char>, Seq<char>)>::empty());
        r
    }

    /// The pairs as they read now.
    pub fn pairs(&self) -> (r: Vec<(String, String)>)
        ensures
            pair_views(r@) == self@,
    {
        let mut pairs: Vec<(String, String)> = Vec::with_capacity(self.inputs.len());
        let mut i: usize = 0;
        while i < self.inputs.len()
            invariant
                i <= self.inputs.len(),
                pairs@.len() == i,
                pair_views(pairs@) == pair_views(self.inputs@).take(i as int),
            decreases self.inputs.len() - i,
        {
            let key = self.inputs[i].0.clone();
            let value = self.inputs[i].1.clone();
            let ghost before = pairs@;
            pairs.push((key, value));
            assert(pair_views(pairs@) =~= pair_views(self.inputs@).take(i as int + 1)) by {
                assert(pair_views(before) =~= pair_views(self.inputs@).take(i as int));
                assert forall|j: int| 0 <= j < i implies #[trigger] pair_views(pairs@)[j] == pair_views(before)[j] by {}
            }
            i = i + 1;
        }
        assert(pair_views(self.inputs@).take(self.inputs.len() as int) =~= pair_views(self.inputs@));
        pairs
    }

    /// Applies what the user did.
    pub fn update(&mut self, message: Message)
        requires
            message_defined(old(self)@, message),
        ensures
            final(self)@ == after_message(old(self)@, message),
    {
        match message {
            Message::KeyInput(index, new_value) => {
                if index < self.inputs.len() {
                    let value = self.inputs[index].1.clone();
                    self.inputs.set(index, (new_value, value));
                    assert(pair_views(self.inputs@) =~= after_message(pair_views(old(self).inputs@), Message::KeyInput(index, new_value)));
                }
            },
            Message::ValueInput(index, new_value) => {
                if index < self.inputs.len() {
                    let key = self.inputs[index].0.clone();
                    self.inputs.set(index, (key, new_value));
                    assert(pair_views(self.inputs@) =~= after_message(pair_views(old(self).inputs@), Message::ValueInput(index, new_value)));
                }
            },
            Message::AddPair => {
                self.inputs.push((String::new(), String::new()));
                assert(pair_views(self.inputs@) =~= pair_views(old(self).inputs@).push((Seq::empty(), Seq::empty())));
            },
            Message::DeletePair(_index) => {},
        }
    }
}

} // verus!
