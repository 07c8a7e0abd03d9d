//! The execution layouts that the external prover knows, and their names.

use vstd::prelude::*;
use vstd::string::StrSliceExecFns;

verus! {

/// A named configuration of the builtins that the prover's circuit supports.
#[derive(Debug, Clone, Copy, PartialEq, Eq, Hash, Structural)]
pub enum Layout {
    Plain,
    Small,
    Dex,
    Recursive,
    Starknet,
    RecursiveLargeOutput,
    AllCairo,
    AllSolidity,
    StarknetWithKeccak,
}

/// The canonical snake-case name of a layout.
pub open spec fn name_of(l: Layout) -> Seq<char> {
    match l {
        Layout::Plain => "plain"@,
        Layout::Small => "small"@,
        Layout::Dex => "dex"@,
        Layout::Recursive => "recursive"@,
        Layout::Starknet => "starknet"@,
        Layout::RecursiveLargeOutput => "recursive_large_output"@,
        Layout::AllCairo => "all_cairo"@,
        Layout::AllSolidity => "all_solidity"@,
        Layout::StarknetWithKeccak => "starknet_with_keccak"@,
    }
}

/// The layout whose canonical name is `s`, if there is one.
pub open spec fn layout_named(s: Seq<char>) -> Option<Layout> {
    if exists|l: Layout| name_of(l) == s {
        Some(choose|l: Layout| name_of(l) == s)
    } else {
        None
    }
}

/// No two layouts share a name.
pub proof fn lemma_names_distinct(a: Layout, b: Layout)
    ensures
        name_of(a) == name_of(b) ==> a == b,
{
    reveal_strlit("plain");
    reveal_strlit("small");
    reveal_strlit("dex");
    reveal_strlit("recursive");
    reveal_strlit("starknet");
    reveal_strlit("recursive_large_output");
    reveal_strlit("all_cairo");
    reveal_strlit("all_solidity");
    reveal_strlit("starknet_with_keccak");
    if name_of(a) == name_of(b) && a != b {
        assert(name_of(a).len() != name_of(b).len() || name_of(a)[0] != name_of(b)[0]);
    }
}

/// Parsing a layout's name gives that layout back, so its name comes out
/// unchanged; and a string that is no layout's name parses to nothing.
pub proof fn lemma_name_round_trip(v: Layout, s: Seq<char>)
    ensures
        layout_named(name_of(v)) == Some(v),
        name_of(layout_named(name_of(v))->0) == name_of(v),
        (forall|l: Layout| name_of(l) != s) ==> layout_named(s) is None,
{
    let w = choose|l: Layout| name_of(l) == name_of(v);
    lemma_names_distinct(v, w);
}

/// `a` and `b` hold the same characters.
fn same_chars(a: &str, b: &str) -> (r: bool)
    ensures
        r == (a@ == b@),
{
    let n = a.unicode_len();
    if n != b.unicode_len() {
        return false;
    }
    let mut i: usize = 0;
    while i < n
        invariant
            n == a@.len(),
            n == b@.len(),
            i <= n,
            forall|j: int| 0 <= j < i ==> a@[j] == b@[j],
        decreases n - i,
    {
        if a.get_char(i) != b.get_char(i) {
            return false;
        }
        i = i + 1;
    }
    assert(a@ =~= b@);
    true
}

impl Layout {
    /// Returns the name of the layout, in the snake case that the prover uses.
    pub fn name(self) -> (r: &'static str)
        ensures
            r@ == name_of(self),
    {
        match self {
            Layout::Plain => "plain",
            Layout::Small => "small",
            Layout::Dex => "dex",
            Layout::Recursive => "recursive",
            Layout::Starknet => "starknet",
            Layout::RecursiveLargeOutput => "recursive_large_output",
            Layout::AllCairo => "all_cairo",
            Layout::AllSolidity => "all_solidity",
            Layout::StarknetWithKeccak => "starknet_with_keccak",
        }
    }

    /// Returns the layout whose name is `s`, or `Err(())` where no layout
    /// has that name.
    pub fn from_name(s: &str) -> (r: Result<Layout, ()>)
        ensures
            r matches Ok(l) ==> layout_named(s@) == Some(l) && name_of(l) == s@,
            r is Err <==> layout_named(s@) is None,
    {
        let all: [Layout; 9] = [
            Layout::Plain,
            Layout::Small,
            Layout::Dex,
            Layout::Recursive,
            Layout::Starknet,
            Layout::RecursiveLargeOutput,
            Layout::AllCairo,
            Layout::AllSolidity,
            Layout::StarknetWithKeccak,
        ];
        let mut i: usize = 0;
        while i < 9
            invariant
                i <= 9,
                forall|j: int| 0 <= j < i ==> name_of(#[trigger] all@[j]) != s@,
            decreases 9 - i,
        {
            let l = all[i];
            if same_chars(l.name(), s) {
                proof {
                    lemma_name_round_trip(l, s@);
                }
                return Ok(l);
            }
            i = i + 1;
        }
        proof {
            assert forall|l: Layout| name_of(l) != s@ by {
                let j: int = match l {
                    Layout::Plain => 0,
                    Layout::Small => 1,
                    Layout::Dex => 2,
                    Layout::Recursive => 3,
                    Layout::Starknet => 4,
                    Layout::RecursiveLargeOutput => 5,
                    Layout::AllCairo => 6,
                    Layout::AllSolidity => 7,
                    Layout::StarknetWithKeccak => 8,
                };
                assert(all@[j] == l);
            }
        }
        Err(())
    }
}

impl core::str::FromStr for Layout {
    type Err = ();

    fn from_str(s: &str) -> (r: Result<Layout, ()>)
        ensures
            r matches Ok(l) ==> layout_named(s@) == Some(l) && name_of(l) == s@,
            r is Err <==> layout_named(s@) is None,
    {
        Layout::from_name(s)
    }
}

} // verus!
