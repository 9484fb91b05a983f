//! One concrete enumeration, written out the way every declared enumeration
//! of the binding is: the declaration table pairs each raw constant of the
//! native library with a symbolic variant, and conversion in both directions
//! as well as the textual rendering are proved against that one table.

use vstd::prelude::*;

use crate::enumutil::declares;
use crate::enumutil::distinct_raws;
use crate::enumutil::distinct_variants;
use crate::enumutil::first_match;
use crate::enumutil::raw_for;
use crate::enumutil::EnumText;
use crate::enumutil::RawEnum;

verus! {

/// The native constant declared for `Example::Foo`.
pub const FOO: u32 = 0;

/// The native constant declared for `Example::Bar`.
pub const BAR: u32 = 1;

/// The native constant declared for `Example::Baz`.
pub const BAZ: u32 = 2;

/// A sample enumeration over the raw type `u32`.
#[derive(Clone, Copy, Debug)]
pub enum Example {
    Foo,
    Bar,
    Baz,
}

impl PartialEq for Example {
    fn eq(&self, other: &Example) -> (r: bool) {
        match (self, other) {
            (Example::Foo, Example::Foo) => true,
            (Example::Bar, Example::Bar) => true,
            (Example::Baz, Example::Baz) => true,
            _ => false,
        }
    }
}

impl vstd::std_specs::cmp::PartialEqSpecImpl for Example {
    open spec fn obeys_eq_spec() -> bool {
        true
    }

    open spec fn eq_spec(&self, other: &Example) -> bool {
        self == other
    }
}

/// How the declaration table of [`Example`] resolves each raw code.
proof fn lemma_example_first_match(raw: u32)
    ensures
        first_match(Example::declared(), raw) == (if raw == FOO {
            Some(Example::Foo)
        } else if raw == BAR {
            Some(Example::Bar)
        } else if raw == BAZ {
            Some(Example::Baz)
        } else {
            None::<Example>
        }),
{
    let t = Example::declared();
    let t1 = t.drop_first();
    let t2 = t1.drop_first();
    let t3 = t2.drop_first();
    assert(t1 =~= seq![(BAR, Example::Bar), (BAZ, Example::Baz)]);
    assert(t2 =~= seq![(BAZ, Example::Baz)]);
    assert(t3 =~= Seq::<(u32, Example)>::empty());
    assert(first_match(t, raw) == if t[0].0 == raw {
        Some(t[0].1)
    } else {
        first_match(t1, raw)
    });
    assert(first_match(t1, raw) == if t1[0].0 == raw {
        Some(t1[0].1)
    } else {
        first_match(t2, raw)
    });
    assert(first_match(t2, raw) == if t2[0].0 == raw {
        Some(t2[0].1)
    } else {
        first_match(t3, raw)
    });
    assert(first_match(t3, raw) == None::<Example>);
}

/// The raw constant the declaration table of [`Example`] gives each variant.
proof fn lemma_example_raw_for(v: Example)
    ensures
        raw_for(Example::declared(), v) == (match v {
            Example::Foo => FOO,
            Example::Bar => BAR,
            Example::Baz => BAZ,
        }),
{
    let t = Example::declared();
    let t1 = t.drop_first();
    let t2 = t1.drop_first();
    assert(t1 =~= seq![(BAR, Example::Bar), (BAZ, Example::Baz)]);
    assert(t2 =~= seq![(BAZ, Example::Baz)]);
    assert(raw_for(t, v) == if t[0].1 == v {
        t[0].0
    } else {
        raw_for(t1, v)
    });
    assert(raw_for(t1, v) == if t1[0].1 == v {
        t1[0].0
    } else {
        raw_for(t2, v)
    });
    assert(raw_for(t2, v) == if t2[0].1 == v {
        t2[0].0
    } else {
        raw_for(t2.drop_first(), v)
    });
}

impl RawEnum<u32> for Example {
    open spec fn declared() -> Seq<(u32, Example)> {
        seq![(FOO, Example::Foo), (BAR, Example::Bar), (BAZ, Example::Baz)]
    }

    proof fn declared_wf() {
        let t = Self::declared();
        assert(distinct_raws(t)) by {
            assert((t[0]).0 == FOO && (t[1]).0 == BAR && (t[2]).0 == BAZ);
        }
        assert(distinct_variants(t)) by {
            assert((t[0]).1 == Example::Foo && (t[1]).1 == Example::Bar && (t[2]).1
                == Example::Baz);
        }
        assert forall|v: Example| #[trigger] declares(t, v) by {
            match v {
                Example::Foo => assert((t[0]).1 == v),
                Example::Bar => assert((t[1]).1 == v),
                Example::Baz => assert((t[2]).1 == v),
            }
        }
    }

    fn from_raw(raw: u32) -> (r: Option<Example>) {
        proof {
            lemma_example_first_match(raw);
        }
        if raw == FOO {
            Some(Example::Foo)
        } else if raw == BAR {
            Some(Example::Bar)
        } else if raw == BAZ {
            Some(Example::Baz)
        } else {
            None
        }
    }

    fn to_raw(self) -> (r: u32) {
        proof {
            lemma_example_raw_for(self);
        }
        match self {
            Example::Foo => FOO,
            Example::Bar => BAR,
            Example::Baz => BAZ,
        }
    }
}

impl EnumText for Example {
    open spec fn type_label() -> Seq<char> {
        "Example"@
    }

    open spec fn rendered(self) -> Seq<char> {
        match self {
            Example::Foo => "foo"@,
            Example::Bar => "bar"@,
            Example::Baz => "baz"@,
        }
    }

    fn label() -> (r: String) {
        "Example".to_owned()
    }

    fn render(self) -> (r: String) {
        match self {
            Example::Foo => "foo".to_owned(),
            Example::Bar => "bar".to_owned(),
            Example::Baz => "baz".to_owned(),
        }
    }
}

} // verus!
