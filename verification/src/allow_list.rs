//! The allow-list: the flags an argument string may hold, whether each takes a value, and
//! what shape that value must have.

use vstd::prelude::*;
use vstd::string::*;
use crate::text::{equals_str, starts_with, to_chars};

verus! {

/// What a token is to an allow-list.
#[derive(Clone, Copy, PartialEq, Eq, Debug, Structural)]
pub enum TokenKind {
    /// A listed flag that stands alone.
    Standalone,
    /// A listed flag that consumes the token after it as its value.
    ValueTaking,
    /// Not a listed flag.
    Unrecognized,
}

/// One entry of an allow-list.
#[derive(Clone, Debug, PartialEq, Eq)]
pub struct Flag {
    pub name: String,
    pub takes_value: bool,
    /// What the value must begin with; empty where any value will do. It is of no account
    /// for a flag that takes no value.
    pub value_prefix: String,
}

/// The mathematical content of a [`Flag`].
pub struct FlagView {
    pub name: Seq<char>,
    pub takes_value: bool,
    pub value_prefix: Seq<char>,
}

impl View for Flag {
    type V = FlagView;

    open spec fn view(&self) -> FlagView {
        FlagView {
            name: self.name@,
            takes_value: self.takes_value,
            value_prefix: self.value_prefix@,
        }
    }
}

/// The entry of `flags` that speaks for `token`: the first one named `token`.
pub open spec fn entry_in(flags: Seq<FlagView>, token: Seq<char>) -> Option<FlagView>
    decreases flags.len(),
{
    if flags.len() == 0 {
        None
    } else if flags[0].name == token {
        Some(flags[0])
    } else {
        entry_in(flags.drop_first(), token)
    }
}

/// The kind of `token` under the entries `flags`.
pub open spec fn kind_in(flags: Seq<FlagView>, token: Seq<char>) -> TokenKind {
    match entry_in(flags, token) {
        None => TokenKind::Unrecognized,
        Some(entry) => if entry.takes_value {
            TokenKind::ValueTaking
        } else {
            TokenKind::Standalone
        },
    }
}

/// Whether `value` has the shape that `flags` asks of the value of `flag`.
pub open spec fn value_fits(flags: Seq<FlagView>, flag: Seq<char>, value: Seq<char>) -> bool {
    match entry_in(flags, flag) {
        None => false,
        Some(entry) => entry.value_prefix.is_prefix_of(value),
    }
}

/// Whether some entry of `flags` is named `token`.
pub open spec fn is_listed(flags: Seq<FlagView>, token: Seq<char>) -> bool {
    exists|i: int| 0 <= i < flags.len() && (#[trigger] flags[i]).name == token
}

/// A token is unrecognized exactly when no entry is named as it is.
pub proof fn lemma_unrecognized_iff_unlisted(flags: Seq<FlagView>, token: Seq<char>)
    ensures
        kind_in(flags, token) == TokenKind::Unrecognized <==> !is_listed(flags, token),
    decreases flags.len(),
{
    if flags.len() > 0 {
        let rest = flags.drop_first();
        lemma_unrecognized_iff_unlisted(rest, token);
        if flags[0].name == token {
            assert(is_listed(flags, token));
        } else {
            if is_listed(rest, token) {
                let i = choose|i: int| 0 <= i < rest.len() && (#[trigger] rest[i]).name == token;
                assert(flags[i + 1] == rest[i]);
            }
            if is_listed(flags, token) {
                let i = choose|i: int| 0 <= i < flags.len() && (#[trigger] flags[i]).name == token;
                assert(rest[i - 1] == flags[i]);
            }
        }
    }
}

/// The content of the entries `flags`, in order.
pub open spec fn flag_views(flags: Seq<Flag>) -> Seq<FlagView> {
    Seq::new(flags.len(), |i: int| flags[i]@)
}

/// An entry for a flag that stands alone.
pub open spec fn standalone(name: Seq<char>) -> FlagView {
    FlagView { name, takes_value: false, value_prefix: Seq::empty() }
}

/// An entry for a flag whose value must begin with `value_prefix`.
pub open spec fn value_taking(name: Seq<char>, value_prefix: Seq<char>) -> FlagView {
    FlagView { name, takes_value: true, value_prefix }
}

/// The entries of the standard allow-list. The disk, accelerator and device flags take any
/// value; the value of `-drive` must begin with `file=`.
pub open spec fn standard_flags() -> Seq<FlagView> {
    seq![
        value_taking("-hda"@, Seq::empty()),
        value_taking("-cdrom"@, Seq::empty()),
        value_taking("-drive"@, "file="@),
        value_taking("-accel"@, Seq::empty()),
        value_taking("-device"@, Seq::empty()),
        standalone("--enable-kvm"@),
        standalone("-usb"@),
    ]
}

/// A fixed list of recognised flags. It is set up once and only read afterwards.
#[derive(Clone, Debug)]
pub struct AllowList {
    flags: Vec<Flag>,
}

impl View for AllowList {
    type V = Seq<FlagView>;

    closed spec fn view(&self) -> Seq<FlagView> {
        flag_views(self.flags@)
    }
}

impl Flag {
    /// An entry for a flag that stands alone.
    pub fn standalone(name: &str) -> (r: Flag)
        ensures
            r@ == standalone(name@),
    {
        Flag { name: String::from_str(name), takes_value: false, value_prefix: String::new() }
    }

    /// An entry for a flag that takes a value of any shape.
    pub fn with_value(name: &str) -> (r: Flag)
        ensures
            r@ == value_taking(name@, Seq::empty()),
    {
        Flag { name: String::from_str(name), takes_value: true, value_prefix: String::new() }
    }

    /// An entry for a flag that takes a value which must begin with `value_prefix`.
    pub fn with_prefixed_value(name: &str, value_prefix: &str) -> (r: Flag)
        ensures
            r@ == value_taking(name@, value_prefix@),
    {
        Flag {
            name: String::from_str(name),
            takes_value: true,
            value_prefix: String::from_str(value_prefix),
        }
    }
}

impl AllowList {
    /// An allow-list with the given entries. Where a name occurs twice, the first entry counts.
    pub fn new(flags: Vec<Flag>) -> (r: AllowList)
        ensures
            r@ == flag_views(flags@),
    {
        AllowList { flags }
    }

    /// The standard allow-list: the disk, drive, accelerator and device flags, each with a
    /// value, and the two switches for KVM and USB.
    pub fn standard() -> (r: AllowList)
        ensures
            r@ == standard_flags(),
    {
        let mut flags: Vec<Flag> = Vec::new();
        flags.push(Flag::with_value("-hda"));
        flags.push(Flag::with_value("-cdrom"));
        flags.push(Flag::with_prefixed_value("-drive", "file="));
        flags.push(Flag::with_value("-accel"));
        flags.push(Flag::with_value("-device"));
        flags.push(Flag::standalone("--enable-kvm"));
        flags.push(Flag::standalone("-usb"));
        let r = AllowList { flags };
        assert(r@ =~= standard_flags());
        r
    }

    /// Finds the entry that speaks for the token spelled by `token`.
    pub fn entry(&self, token: &[char]) -> (r: Option<&Flag>)
        ensures
            r matches Some(entry) ==> entry_in(self@, token@) == Some(entry@),
            r is None ==> entry_in(self@, token@) is None,
    {
        let n: usize = self.flags.len();
        let mut i: usize = 0;
        assert(self@.skip(0) == self@);
        while i < n
            invariant
                n == self.flags@.len(),
                i <= n,
                entry_in(self@, token@) == entry_in(self@.skip(i as int), token@),
            decreases n - i,
        {
            let entry = &self.flags[i];
            assert(self@.skip(i as int)[0] == entry@);
            if equals_str(token, entry.name.as_str()) {
                return Some(entry);
            }
            assert(self@.skip(i as int).drop_first() == self@.skip(i + 1));
            i += 1;
        }
        None
    }

    /// Classifies `token`.
    pub fn classify(&self, token: &str) -> (kind: TokenKind)
        ensures
            kind == kind_in(self@, token@),
    {
        let chars = to_chars(token);
        self.classify_chars(chars.as_slice())
    }

    /// Classifies the token spelled by `token`.
    pub fn classify_chars(&self, token: &[char]) -> (kind: TokenKind)
        ensures
            kind == kind_in(self@, token@),
    {
        match self.entry(token) {
            None => TokenKind::Unrecognized,
            Some(entry) => if entry.takes_value {
                TokenKind::ValueTaking
            } else {
                TokenKind::Standalone
            },
        }
    }

    /// Decides whether `value` has the shape asked of the value of `flag`.
    pub fn accepts_value(&self, flag: &[char], value: &[char]) -> (r: bool)
        ensures
            r == value_fits(self@, flag@, value@),
    {
        match self.entry(flag) {
            None => false,
            Some(entry) => starts_with(value, entry.value_prefix.as_str()),
        }
    }
}

} // verus!
