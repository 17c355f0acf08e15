//! The named tags that saved games are made of, as far as arrows use them.

use vstd::prelude::*;

verus! {

/// A saved value.
#[derive(Debug, Clone, Copy, PartialEq, Eq, Structural)]
pub enum NbtTag {
    /// One byte.
    Byte(i8),
    /// Two bytes.
    Short(i16),
    /// Eight bytes that hold the bit pattern of an IEEE 754 binary64 number.
    Double(u64),
    /// A value of a kind that arrows do not use.
    Other,
}

/// A saved value and its name.
#[derive(Debug, PartialEq, Eq)]
pub struct NbtEntry {
    /// The name.
    pub name: String,
    /// The value.
    pub tag: NbtTag,
}

/// A list of named tags in the order in which they were put in. A name may occur more than once;
/// the first occurrence is the one that is found.
#[derive(Debug, PartialEq, Eq)]
pub struct NbtCompound {
    entries: Vec<NbtEntry>,
}

impl View for NbtCompound {
    type V = Seq<(Seq<char>, NbtTag)>;

    closed spec fn view(&self) -> Seq<(Seq<char>, NbtTag)> {
        self.entries@.map_values(|e: NbtEntry| (e.name@, e.tag))
    }
}

/// The first tag of that name, if there is one.
pub open spec fn first_tag(tags: Seq<(Seq<char>, NbtTag)>, name: Seq<char>) -> Option<NbtTag>
    decreases tags.len(),
{
    if tags.len() == 0 {
        None
    } else if tags[0].0 == name {
        Some(tags[0].1)
    } else {
        first_tag(tags.drop_first(), name)
    }
}

/// The first tag of that name, if there is one and it is a byte.
pub open spec fn first_byte(tags: Seq<(Seq<char>, NbtTag)>, name: Seq<char>) -> Option<i8> {
    match first_tag(tags, name) {
        Some(NbtTag::Byte(value)) => Some(value),
        _ => None,
    }
}

/// The first tag of that name, if there is one and it is a short.
pub open spec fn first_short(tags: Seq<(Seq<char>, NbtTag)>, name: Seq<char>) -> Option<i16> {
    match first_tag(tags, name) {
        Some(NbtTag::Short(value)) => Some(value),
        _ => None,
    }
}

/// The first tag of that name, if there is one and it is a double.
pub open spec fn first_double(tags: Seq<(Seq<char>, NbtTag)>, name: Seq<char>) -> Option<u64> {
    match first_tag(tags, name) {
        Some(NbtTag::Double(bits)) => Some(bits),
        _ => None,
    }
}

/// A tag that is put in is found under its name if none of that name was there before, and
/// changes nothing of what is found under other names.
pub proof fn law_insert_then_find(
    tags: Seq<(Seq<char>, NbtTag)>,
    name: Seq<char>,
    tag: NbtTag,
    sought: Seq<char>,
)
    ensures
        first_tag(tags.push((name, tag)), sought) == (match first_tag(tags, sought) {
            Some(found) => Some(found),
            None => if sought == name {
                Some(tag)
            } else {
                None
            },
        }),
    decreases tags.len(),
{
    let all = tags.push((name, tag));
    if tags.len() == 0 {
        assert(first_tag(all.drop_first(), sought) is None);
    } else {
        assert(all.drop_first() =~= tags.drop_first().push((name, tag)));
        law_insert_then_find(tags.drop_first(), name, tag, sought);
    }
}

/// What is found under a name is the tag at the first place where the name stands, read as the
/// kind that it is and as no other.
pub proof fn law_first_place_is_found(tags: Seq<(Seq<char>, NbtTag)>, name: Seq<char>, at: int)
    requires
        0 <= at < tags.len(),
        tags[at].0 == name,
        forall|i: int| 0 <= i < at ==> (#[trigger] tags[i]).0 != name,
    ensures
        first_tag(tags, name) == Some(tags[at].1),
        tags[at].1 matches NbtTag::Byte(value) ==> first_byte(tags, name) == Some(value),
        tags[at].1 !is Byte ==> first_byte(tags, name) is None,
        tags[at].1 matches NbtTag::Short(value) ==> first_short(tags, name) == Some(value),
        tags[at].1 !is Short ==> first_short(tags, name) is None,
        tags[at].1 matches NbtTag::Double(bits) ==> first_double(tags, name) == Some(bits),
        tags[at].1 !is Double ==> first_double(tags, name) is None,
    decreases at,
{
    if at > 0 {
        let rest = tags.drop_first();
        assert(tags[0].0 != name);
        assert forall|i: int| 0 <= i < at - 1 implies (#[trigger] rest[i]).0 != name by {
            assert(rest[i] == tags[i + 1]);
        }
        law_first_place_is_found(rest, name, at - 1);
    }
}

/// Nothing is found under a name that stands nowhere.
pub proof fn law_missing_name_is_not_found(tags: Seq<(Seq<char>, NbtTag)>, name: Seq<char>)
    requires
        forall|i: int| 0 <= i < tags.len() ==> (#[trigger] tags[i]).0 != name,
    ensures
        first_tag(tags, name) is None,
        first_byte(tags, name) is None,
        first_short(tags, name) is None,
        first_double(tags, name) is None,
    decreases tags.len(),
{
    if tags.len() > 0 {
        let rest = tags.drop_first();
        assert(tags[0].0 != name);
        assert forall|i: int| 0 <= i < rest.len() implies (#[trigger] rest[i]).0 != name by {
            assert(rest[i] == tags[i + 1]);
        }
        law_missing_name_is_not_found(rest, name);
    }
}

impl NbtCompound {
    /// A compound without tags.
    pub fn new() -> (r: Self)
        ensures
            r@ == Seq::<(Seq<char>, NbtTag)>::empty(),
    {
        let r = NbtCompound { entries: Vec::new() };
        assert(r@ =~= Seq::<(Seq<char>, NbtTag)>::empty());
        r
    }

    /// Puts a named tag behind the others.
    pub fn insert(&mut self, name: &str, tag: NbtTag)
        ensures
            final(self)@ == old(self)@.push((name@, tag)),
    {
        let ghost before = self@;
        self.entries.push(NbtEntry { name: name.to_owned(), tag });
        assert(self@ =~= before.push((name@, tag)));
    }

    /// The named tags, in order.
    pub fn entries(&self) -> (r: &Vec<NbtEntry>)
        ensures
            r@.map_values(|e: NbtEntry| (e.name@, e.tag)) == self@,
    {
        &self.entries
    }

    /// The first tag of that name, if there is one.
    pub fn get(&self, name: &str) -> (r: Option<NbtTag>)
        ensures
            r == first_tag(self@, name@),
    {
        let sought: String = name.to_owned();
        let mut i: usize = 0;
        assert(self@.skip(0) =~= self@);
        while i < self.entries.len()
            invariant
                i <= self.entries@.len(),
                sought@ == name@,
                first_tag(self@, name@) == first_tag(self@.skip(i as int), name@),
            decreases self.entries@.len() - i,
        {
            assert(self@.skip(i as int).drop_first() =~= self@.skip(i + 1));
            assert(self@.skip(i as int)[0] == (
                self.entries@[i as int].name@,
                self.entries@[i as int].tag,
            ));
            if self.entries[i].name == sought {
                return Some(self.entries[i].tag);
            }
            i += 1;
        }
        assert(self@.skip(i as int).len() == 0);
        None
    }

    /// The first tag of that name, if there is one and it is a byte.
    pub fn byte(&self, name: &str) -> (r: Option<i8>)
        ensures
            r == first_byte(self@, name@),
    {
        match self.get(name) {
            Some(NbtTag::Byte(value)) => Some(value),
            _ => None,
        }
    }

    /// The first tag of that name, if there is one and it is a short.
    pub fn short(&self, name: &str) -> (r: Option<i16>)
        ensures
            r == first_short(self@, name@),
    {
        match self.get(name) {
            Some(NbtTag::Short(value)) => Some(value),
            _ => None,
        }
    }

    /// The bit pattern of the first tag of that name, if there is one and it is a double.
    pub fn double(&self, name: &str) -> (r: Option<u64>)
        ensures
            r == first_double(self@, name@),
    {
        match self.get(name) {
            Some(NbtTag::Double(bits)) => Some(bits),
            _ => None,
        }
    }
}

} // verus!
