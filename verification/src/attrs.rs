//! Message headers: a small map from attribute names to serialized values.

use vstd::prelude::*;
use vstd::string::StringExecFns;
use crate::data::{RemoteMessage, Serialized, SerializedView};
use crate::text::same_str;

verus! {

/// One header: the attribute's name and its serialized value.
#[derive(Debug)]
pub struct Attr {
    pub name: String,
    pub value: Serialized,
}

impl View for Attr {
    type V = (Seq<char>, SerializedView);

    open spec fn view(&self) -> (Seq<char>, SerializedView) {
        (self.name@, self.value@)
    }
}

/// The headers of a message, as specifications see them: the names with
/// their values.
pub type HeadersView = Seq<(Seq<char>, SerializedView)>;

/// The headers of a message: attribute names with their values.
#[derive(Debug)]
pub struct Attrs {
    entries: Vec<Attr>,
}

/// The value under `name` in a list of headers: that of the first entry of that name.
pub open spec fn header(entries: Seq<(Seq<char>, SerializedView)>, name: Seq<char>) -> Option<
    SerializedView,
>
    decreases entries.len(),
{
    if entries.len() == 0 {
        None
    } else if entries[0].0 == name {
        Some(entries[0].1)
    } else {
        header(entries.drop_first(), name)
    }
}

/// The list with the value under `name` replaced, or with the entry added at the end.
pub open spec fn with_header(
    entries: Seq<(Seq<char>, SerializedView)>,
    name: Seq<char>,
    value: SerializedView,
) -> Seq<(Seq<char>, SerializedView)>
    decreases entries.len(),
{
    if entries.len() == 0 {
        seq![(name, value)]
    } else if entries[0].0 == name {
        seq![(name, value)] + entries.drop_first()
    } else {
        seq![entries[0]] + with_header(entries.drop_first(), name, value)
    }
}

/// A header that was set is the one that is found, and the others stay.
pub proof fn lemma_with_header(
    entries: Seq<(Seq<char>, SerializedView)>,
    name: Seq<char>,
    value: SerializedView,
    other: Seq<char>,
)
    ensures
        header(with_header(entries, name, value), name) == Some(value),
        other != name ==> header(with_header(entries, name, value), other) == header(
            entries,
            other,
        ),
    decreases entries.len(),
{
    let after = with_header(entries, name, value);
    if entries.len() == 0 {
        assert(after[0] == (name, value));
        assert(after.drop_first() =~= Seq::empty());
        assert(header(after.drop_first(), other) is None);
    } else if entries[0].0 == name {
        assert(after[0] == (name, value));
        assert(after.drop_first() =~= entries.drop_first());
    } else {
        lemma_with_header(entries.drop_first(), name, value, other);
        assert(after[0] == entries[0]);
        assert(after.drop_first() =~= with_header(entries.drop_first(), name, value));
    }
}

impl View for Attrs {
    type V = Seq<(Seq<char>, SerializedView)>;

    closed spec fn view(&self) -> Seq<(Seq<char>, SerializedView)> {
        Seq::new(self.entries@.len(), |i: int| self.entries@[i]@)
    }
}

impl Clone for Attrs {
    fn clone(&self) -> (r: Self)
        ensures
            r@ == self@,
    {
        let mut entries: Vec<Attr> = Vec::new();
        let mut i: usize = 0;
        while i < self.entries.len()
            invariant
                i <= self.entries@.len(),
                entries@.len() == i,
                forall|j: int| 0 <= j < i ==> entries@[j]@ == self.entries@[j]@,
            decreases self.entries@.len() - i,
        {
            let e = &self.entries[i];
            entries.push(Attr { name: e.name.clone(), value: e.value.clone() });
            i += 1;
        }
        let r = Attrs { entries };
        assert(r@ =~= self@);
        r
    }
}

impl Attrs {
    /// No headers.
    pub fn new() -> (r: Attrs)
        ensures
            r@ == Seq::<(Seq<char>, SerializedView)>::empty(),
    {
        let r = Attrs { entries: Vec::new() };
        assert(r@ =~= Seq::empty());
        r
    }

    /// The number of headers.
    pub fn len(&self) -> (r: usize)
        ensures
            r == self@.len(),
    {
        self.entries.len()
    }

    /// The header at a place: its name and its value.
    pub fn entry(&self, i: usize) -> (r: (&str, &Serialized))
        requires
            i < self@.len(),
        ensures
            r.0@ == self@[i as int].0,
            r.1@ == self@[i as int].1,
    {
        (self.entries[i].name.as_str(), &self.entries[i].value)
    }

    /// The value under `name`, if there is one.
    pub fn get(&self, name: &str) -> (r: Option<&Serialized>)
        ensures
            match r {
                Some(value) => header(self@, name@) == Some(value@),
                None => header(self@, name@) is None,
            },
    {
        let mut i: usize = 0;
        assert(self@.skip(0) =~= self@);
        while i < self.entries.len()
            invariant
                i <= self.entries@.len(),
                header(self@, name@) == header(self@.skip(i as int), name@),
            decreases self.entries@.len() - i,
        {
            let ghost rest = self@.skip(i as int);
            assert(rest[0] == self.entries@[i as int]@);
            assert(rest.drop_first() =~= self@.skip(i as int + 1));
            if same_str(self.entries[i].name.as_str(), name) {
                return Some(&self.entries[i].value);
            }
            i += 1;
        }
        None
    }

    /// Sets the value under `name`, in place of the one that was there.
    pub fn set(&mut self, name: &str, value: Serialized)
        ensures
            final(self)@ == with_header(old(self)@, name@, value@),
    {
        let mut i: usize = 0;
        assert(self@.skip(0) =~= self@);
        assert(self@.take(0) + with_header(self@, name@, value@) =~= with_header(
            self@,
            name@,
            value@,
        ));
        while i < self.entries.len()
            invariant
                i <= self.entries@.len(),
                *self == *old(self),
                with_header(self@, name@, value@) == self@.take(i as int) + with_header(
                    self@.skip(i as int),
                    name@,
                    value@,
                ),
            decreases self.entries@.len() - i,
        {
            let ghost rest = self@.skip(i as int);
            assert(rest[0] == self.entries@[i as int]@);
            assert(rest.drop_first() =~= self@.skip(i as int + 1));
            if same_str(self.entries[i].name.as_str(), name) {
                let ghost before = self@;
                self.entries[i] = Attr { name: String::from_str(name), value };
                assert(self@ =~= before.take(i as int) + (seq![(name@, value@)]
                    + rest.drop_first()));
                return ;
            }
            assert(self@.take(i as int + 1) =~= self@.take(i as int) + seq![rest[0]]);
            assert(self@.take(i as int) + (seq![rest[0]] + with_header(
                rest.drop_first(),
                name@,
                value@,
            )) =~= self@.take(i as int + 1) + with_header(
                self@.skip(i as int + 1),
                name@,
                value@,
            ));
            i += 1;
        }
        let ghost before = self@;
        assert(before.skip(i as int) =~= Seq::empty());
        assert(before.take(i as int) =~= before);
        self.entries.push(Attr { name: String::from_str(name), value });
        assert(self@ =~= before + seq![(name@, value@)]);
    }

    /// Sets the value under `name` to a serialized `T`; the error says why
    /// the value could not be encoded, and then nothing is changed.
    pub fn set_value<T: RemoteMessage>(&mut self, name: &str, value: &T) -> (r: Result<(), String>)
        ensures
            match r {
                Ok(()) => value.encoding() matches Some(bytes) && final(self)@ == with_header(
                    old(self)@,
                    name@,
                    SerializedView { typename: Some(T::typename_spec()), bytes },
                ),
                Err(_) => value.encoding() is None && final(self)@ == old(self)@,
            },
    {
        match Serialized::serialize(value) {
            Ok(s) => {
                self.set(name, s);
                Ok(())
            },
            Err(e) => Err(e),
        }
    }

    /// The value under `name` as a `T`, if there is one that decodes.
    pub fn get_value<T: RemoteMessage>(&self, name: &str) -> (r: Option<T>)
        ensures
            r == match header(self@, name@) {
                Some(s) => T::decoding(s.bytes),
                None => None,
            },
    {
        match self.get(name) {
            Some(s) => match s.deserialized::<T>() {
                Ok(value) => Some(value),
                Err(_) => None,
            },
            None => None,
        }
    }
}

} // verus!
