//! The name of a command, cut from the front of its debug text.
use vstd::prelude::*;

verus! {

/// How many characters of a name are kept.
pub const NAME_CAPACITY: usize = 48;

/// Whether a character can stand in the name of a command.
pub open spec fn is_name_char(c: char) -> bool {
    ||| '0' <= c && c <= '9'
    ||| 'A' <= c && c <= 'Z'
    ||| 'a' <= c && c <= 'z'
    ||| c == '_'
}

/// Whether a character can stand in the name of a command.
fn in_name(c: char) -> (is: bool)
    ensures
        is == is_name_char(c),
{
    ('0' <= c && c <= '9') || ('A' <= c && c <= 'Z') || ('a' <= c && c <= 'z') || c == '_'
}

/// How many characters of `text` go into a name that has `room` for more.
pub open spec fn taken(text: Seq<char>, room: nat) -> nat
    decreases text.len(),
{
    if text.len() == 0 || room == 0 || !is_name_char(text[0]) {
        0
    } else {
        1 + taken(text.drop_first(), (room - 1) as nat)
    }
}

/// Takes up the front of a debug text until the name in it ends, so that the
/// rest of the text is never made.
#[derive(Debug)]
pub struct VariantNameSink {
    name: String,
}

impl VariantNameSink {
    /// What was taken up so far.
    pub closed spec fn view(self) -> Seq<char> {
        self.name@
    }

    /// Nothing was taken up yet.
    pub fn new() -> (sink: VariantNameSink)
        ensures
            sink.view().len() == 0,
    {
        VariantNameSink { name: String::new() }
    }

    /// Takes up as much of `text` as belongs to the name and fits. Returns
    /// whether that was all of it.
    pub fn write_str(&mut self, text: &str) -> (all: bool)
        requires
            old(self).view().len() <= NAME_CAPACITY,
        ensures
            ({
                let room = (NAME_CAPACITY - old(self).view().len()) as nat;
                &&& final(self).view() == old(self).view() + text@.take(taken(text@, room) as int)
                &&& final(self).view().len() <= NAME_CAPACITY
                &&& all == (taken(text@, room) == text@.len())
            }),
    {
        let ghost whole = text@;
        let room: usize = NAME_CAPACITY - self.name.as_str().unicode_len();
        let len: usize = text.unicode_len();
        let mut at: usize = 0;
        proof {
            assert(whole.skip(0) =~= whole);
        }
        while at < len && at < room && in_name(text.get_char(at))
            invariant
                whole == text@,
                len == whole.len(),
                at <= len,
                at <= room,
                taken(whole, room as nat) == at + taken(
                    whole.skip(at as int),
                    (room - at) as nat,
                ),
            decreases len - at,
        {
            proof {
                assert(whole.skip(at as int).drop_first() =~= whole.skip(at + 1));
                assert(whole.skip(at as int)[0] == whole[at as int]);
            }
            at = at + 1;
        }
        proof {
            if at < len {
                assert(whole.skip(at as int)[0] == whole[at as int]);
            }
            assert(whole.subrange(0, at as int) =~= whole.take(at as int));
        }
        self.name.append(text.substring_char(0, at));
        at == len
    }

    /// The name that was taken up, or a general one where there is none.
    pub fn as_str(&self) -> (name: &str)
        ensures
            name@ == if self.view().len() == 0 {
                "PluginCommand"@
            } else {
                self.view()
            },
    {
        if self.name.as_str().unicode_len() == 0 {
            "PluginCommand"
        } else {
            self.name.as_str()
        }
    }
}

/// What is kept of a text is a part of its front in which nothing but a name
/// stands.
pub proof fn names_hold_only_name_characters(text: Seq<char>, room: nat, i: int)
    requires
        0 <= i < taken(text, room),
    ensures
        taken(text, room) <= text.len(),
        taken(text, room) <= room,
        is_name_char(text[i]),
    decreases text.len(),
{
    let rest = text.drop_first();
    if i > 0 {
        names_hold_only_name_characters(rest, (room - 1) as nat, i - 1);
        assert(rest[i - 1] == text[i]);
    } else if taken(rest, (room - 1) as nat) > 0 {
        names_hold_only_name_characters(rest, (room - 1) as nat, 0);
    }
}

} // verus!
