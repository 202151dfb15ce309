use vstd::prelude::*;
use vstd::hash_map::StringHashMap;
use crate::text::{chars_of, string_of};
use crate::value::{Value, ValueView};

verus! {

/// The variable environment: which value each name stands for. Names are case-sensitive,
/// and the order in which they were set does not matter.
pub struct Variables {
    map: StringHashMap<Value>,
}

impl View for Variables {
    type V = Map<Seq<char>, ValueView>;

    closed spec fn view(&self) -> Map<Seq<char>, ValueView> {
        self.map@.map_values(|v: Value| v@)
    }
}

impl Variables {
    /// The environment that holds no variable.
    pub fn new() -> (variables: Variables)
        ensures
            variables@ == Map::<Seq<char>, ValueView>::empty(),
    {
        let variables = Variables { map: StringHashMap::new() };
        variables
    }

    /// Sets `name` to `value`, whether or not it was set before.
    pub fn insert(&mut self, name: String, value: Value)
        ensures
            final(self)@ == old(self)@.insert(name@, value@),
    {
        self.map.insert(name, value);
    }

    /// The value of `name`, where it is set.
    pub fn get(&self, name: &str) -> (value: Option<&Value>)
        ensures
            value is Some <==> self@.contains_key(name@),
            value is Some ==> value->0@ == self@[name@],
    {
        self.map.get(name)
    }

    /// Whether `name` is set.
    pub fn contains(&self, name: &str) -> (b: bool)
        ensures
            b == self@.contains_key(name@),
    {
        self.map.contains_key(name)
    }
}

/// Where the first `=` of `text` stands; the length of `text` where it holds none.
pub open spec fn equals_sign(text: Seq<char>) -> int
    decreases text.len(),
{
    if text.len() == 0 {
        0
    } else {
        let before = equals_sign(text.drop_last());
        if before < text.len() - 1 || text.last() == '=' {
            before
        } else {
            before + 1
        }
    }
}

/// The name and the value of a definition `name=value`: the name is what stands before
/// the first `=`, and is not empty; the value is all that follows it.
pub open spec fn definition_of(text: Seq<char>) -> Option<(Seq<char>, Seq<char>)> {
    let at = equals_sign(text);
    if 0 < at < text.len() {
        Some((text.take(at), text.skip(at + 1)))
    } else {
        None
    }
}

/// The first `=` of a text stands inside the text or right after it, and no `=` stands
/// before it.
pub proof fn lemma_equals_sign(text: Seq<char>)
    ensures
        0 <= equals_sign(text) <= text.len(),
        equals_sign(text) < text.len() ==> text[equals_sign(text)] == '=',
        forall|i: int| 0 <= i < equals_sign(text) ==> text[i] != '=',
    decreases text.len(),
{
    if text.len() > 0 {
        let before = text.drop_last();
        lemma_equals_sign(before);
        assert forall|i: int| 0 <= i < equals_sign(text) implies text[i] != '=' by {
            if i < before.len() {
                assert(text[i] == before[i]);
            }
        }
    }
}

/// Splits a definition `name=value` into its name and its value. `None` where `text` is
/// no definition.
pub fn split_definition(text: &str) -> (definition: Option<(String, String)>)
    ensures
        match definition {
            Some((name, value)) => definition_of(text@) == Some((name@, value@)),
            None => definition_of(text@) is None,
        },
{
    let chars = chars_of(text);
    let mut at: usize = 0;
    while at < chars.len() && chars[at] != '='
        invariant
            at <= chars.len(),
            chars@ == text@,
            forall|i: int| 0 <= i < at ==> chars@[i] != '=',
        decreases chars.len() - at,
    {
        at = at + 1;
    }
    proof {
        lemma_equals_sign(chars@);
    }
    if at == 0 || at == chars.len() {
        return None;
    }
    let mut name: Vec<char> = Vec::new();
    let mut value: Vec<char> = Vec::new();
    let mut i: usize = 0;
    while i < chars.len()
        invariant
            0 < at < chars.len(),
            i <= chars.len(),
            name@ == chars@.take(if i < at { i as int } else { at as int }),
            value@ == chars@.subrange(at + 1, if i <= at { at + 1 } else { i as int }),
        decreases chars.len() - i,
    {
        if i < at {
            name.push(chars[i]);
        } else if i > at {
            value.push(chars[i]);
        }
        i = i + 1;
    }
    Some((string_of(&name), string_of(&value)))
}

/// The order in which two names are set does not matter.
pub proof fn lemma_order_of_names(
    env: Map<Seq<char>, ValueView>,
    first: Seq<char>,
    first_value: ValueView,
    second: Seq<char>,
    second_value: ValueView,
)
    requires
        first != second,
    ensures
        env.insert(first, first_value).insert(second, second_value) == env.insert(
            second,
            second_value,
        ).insert(first, first_value),
{
}

} // verus!
