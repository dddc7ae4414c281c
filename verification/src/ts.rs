//! Where a closed segment is stored: its name, and its locator on the local
//! disk or in a remote bucket.

use vstd::prelude::*;
use vstd::string::StringExecFns;

verus! {

/// The character that writes the digit `d`.
pub open spec fn digit_char(d: nat) -> char {
    if d == 0 {
        '0'
    } else if d == 1 {
        '1'
    } else if d == 2 {
        '2'
    } else if d == 3 {
        '3'
    } else if d == 4 {
        '4'
    } else if d == 5 {
        '5'
    } else if d == 6 {
        '6'
    } else if d == 7 {
        '7'
    } else if d == 8 {
        '8'
    } else {
        '9'
    }
}

/// `n` in decimal, without leading zeros.
pub open spec fn decimal(n: nat) -> Seq<char>
    decreases n,
{
    if n < 10 {
        seq![digit_char(n)]
    } else {
        decimal(n / 10).push(digit_char(n % 10))
    }
}

/// The name of segment `sequence_no`: the number in decimal, then `.ts`.
pub open spec fn segment_name(sequence_no: nat) -> Seq<char> {
    decimal(sequence_no) + seq!['.', 't', 's']
}

/// `name` below `root`, with one slash between them.
pub open spec fn joined(root: Seq<char>, name: Seq<char>) -> Seq<char> {
    root + seq!['/'] + name
}

/// What `str::to_uppercase` makes of a text.
pub uninterp spec fn uppercased(text: Seq<char>) -> Seq<char>;

/// `str::to_uppercase`: the upper-case form of `s`.
#[verifier::external_body]
fn upper_of(s: &str) -> (r: String)
    ensures
        r@ == uppercased(s@),
{
    s.to_uppercase()
}

fn digit_text(d: u32) -> (s: &'static str)
    requires
        d < 10,
    ensures
        s@ == seq![digit_char(d as nat)],
{
    proof {
        reveal_strlit("0");
        reveal_strlit("1");
        reveal_strlit("2");
        reveal_strlit("3");
        reveal_strlit("4");
        reveal_strlit("5");
        reveal_strlit("6");
        reveal_strlit("7");
        reveal_strlit("8");
        reveal_strlit("9");
    }
    let s = if d == 0 {
        "0"
    } else if d == 1 {
        "1"
    } else if d == 2 {
        "2"
    } else if d == 3 {
        "3"
    } else if d == 4 {
        "4"
    } else if d == 5 {
        "5"
    } else if d == 6 {
        "6"
    } else if d == 7 {
        "7"
    } else if d == 8 {
        "8"
    } else {
        "9"
    };
    assert(s@ =~= seq![digit_char(d as nat)]);
    s
}

fn push_decimal(out: &mut String, n: u32)
    ensures
        final(out)@ == old(out)@ + decimal(n as nat),
    decreases n,
{
    if n >= 10 {
        push_decimal(out, n / 10);
    }
    out.append(digit_text(n % 10));
    assert(final(out)@ =~= old(out)@ + decimal(n as nat));
}

fn push_segment_name(out: &mut String, sequence_no: u32)
    ensures
        final(out)@ == old(out)@ + segment_name(sequence_no as nat),
{
    push_decimal(out, sequence_no);
    proof {
        reveal_strlit(".ts");
    }
    out.append(".ts");
    assert(final(out)@ =~= old(out)@ + segment_name(sequence_no as nat));
}

/// The store of one stream's segments: a directory on the local disk, or a
/// prefix in a remote bucket. One store uses one of the two, never both.
pub struct Ts {
    live_path: String,
    remote: bool,
}

impl Ts {
    /// The local directory, or the remote prefix as it was configured.
    pub closed spec fn root(&self) -> Seq<char> {
        self.live_path@
    }

    pub closed spec fn is_remote(&self) -> bool {
        self.remote
    }

    /// Where segment `sequence_no` lies: below the directory for a local
    /// store, below the prefix in upper case for a remote one.
    pub open spec fn locator(&self, sequence_no: nat) -> Seq<char> {
        if self.is_remote() {
            joined(uppercased(self.root()), segment_name(sequence_no))
        } else {
            joined(self.root(), segment_name(sequence_no))
        }
    }

    /// A store in the local directory `path`.
    pub fn new(path: String) -> (ts: Ts)
        ensures
            ts.root() == path@,
            !ts.is_remote(),
    {
        Ts { live_path: path, remote: false }
    }

    /// A store under `prefix` in a remote bucket.
    pub fn new_remote(prefix: String) -> (ts: Ts)
        ensures
            ts.root() == prefix@,
            ts.is_remote(),
    {
        Ts { live_path: prefix, remote: true }
    }

    pub fn live_path(&self) -> (p: &String)
        ensures
            p@ == self.root(),
    {
        &self.live_path
    }

    pub fn uses_remote(&self) -> (r: bool)
        ensures
            r == self.is_remote(),
    {
        self.remote
    }

    /// The name under which segment `sequence_no` is stored.
    pub fn file_name(sequence_no: u32) -> (name: String)
        ensures
            name@ == segment_name(sequence_no as nat),
    {
        let mut name = String::new();
        push_segment_name(&mut name, sequence_no);
        assert(name@ =~= segment_name(sequence_no as nat));
        name
    }

    /// The key of segment `sequence_no` in a remote bucket: the prefix in
    /// upper case, a slash, and the segment's name.
    pub fn remote_key(prefix: &str, sequence_no: u32) -> (key: String)
        ensures
            key@ == joined(uppercased(prefix@), segment_name(sequence_no as nat)),
    {
        let mut key = upper_of(prefix);
        proof {
            reveal_strlit("/");
        }
        key.append("/");
        push_segment_name(&mut key, sequence_no);
        assert(key@ =~= joined(uppercased(prefix@), segment_name(sequence_no as nat)));
        key
    }

    /// The path of segment `sequence_no` below the local directory `root`.
    pub fn local_path(root: &str, sequence_no: u32) -> (path: String)
        ensures
            path@ == joined(root@, segment_name(sequence_no as nat)),
    {
        let mut path = String::from_str(root);
        proof {
            reveal_strlit("/");
        }
        path.append("/");
        push_segment_name(&mut path, sequence_no);
        assert(path@ =~= joined(root@, segment_name(sequence_no as nat)));
        path
    }

    /// The name and the locator of segment `sequence_no` in this store.
    pub fn locate(&self, sequence_no: u32) -> (r: (String, String))
        ensures
            r.0@ == segment_name(sequence_no as nat),
            r.1@ == self.locator(sequence_no as nat),
    {
        let locator = if self.remote {
            Self::remote_key(self.live_path.as_str(), sequence_no)
        } else {
            Self::local_path(self.live_path.as_str(), sequence_no)
        };
        (Self::file_name(sequence_no), locator)
    }
}

} // verus!
