use vstd::prelude::*;
use vstd::string::*;
use crate::text::{i32_text, join_with, signed_decimal};

verus! {

/// Something that can describe itself as text.
pub trait Show {
    spec fn spec_show(&self) -> Seq<char>;

    fn show(&self) -> (r: String)
        ensures
            r@ == self.spec_show(),
    ;
}

/// A target that already shows itself.
pub struct StringTarget {
    pub value: String,
}

impl Show for StringTarget {
    open spec fn spec_show(&self) -> Seq<char> {
        "StringTarget ["@ + self.value@ + "]"@
    }

    fn show(&self) -> (r: String) {
        String::from_str("StringTarget [").concat(self.value.as_str()).concat("]")
    }
}

/// A list of numbers that has no textual form of its own.
pub struct DigitalTarget<'t> {
    pub value: &'t [i32],
}

/// Gives a `DigitalTarget` the `Show` interface.
pub struct Adapter<'t> {
    obj: DigitalTarget<'t>,
}

/// The numbers in decimal, separated by a comma and a space.
pub open spec fn listing(values: Seq<i32>) -> Seq<char> {
    join_with(Seq::new(values.len(), |k: int| signed_decimal(values[k] as int)), ", "@)
}

impl<'t> Adapter<'t> {
    /// The numbers of the adapted target.
    pub closed spec fn spec_values(&self) -> Seq<i32> {
        self.obj.value@
    }

    pub fn new(obj: DigitalTarget<'t>) -> (r: Adapter<'t>)
        ensures
            r.spec_values() == obj.value@,
    {
        Adapter { obj }
    }
}

impl<'t> Show for Adapter<'t> {
    open spec fn spec_show(&self) -> Seq<char> {
        "DigitalTarget ["@ + listing(self.spec_values()) + "]"@
    }

    fn show(&self) -> (r: String) {
        let values = self.obj.value;
        let ghost all = Seq::new(values@.len(), |k: int| signed_decimal(values@[k] as int));
        let mut out = String::new();
        let mut i: usize = 0;
        while i < values.len()
            invariant
                i <= values@.len(),
                all == Seq::new(values@.len(), |k: int| signed_decimal(values@[k] as int)),
                out@ == join_with(all.subrange(0, i as int), ", "@),
            decreases values@.len() - i,
        {
            if i > 0 {
                out.append(", ");
            }
            let t = i32_text(values[i]);
            out.append(t.as_str());
            proof {
                let p = all.subrange(0, i + 1);
                assert(p.drop_last() =~= all.subrange(0, i as int));
                if i == 0 {
                    assert(out@ =~= p[0]);
                }
            }
            i = i + 1;
        }
        proof {
            assert(all.subrange(0, i as int) =~= all);
        }
        String::from_str("DigitalTarget [").concat(out.as_str()).concat("]")
    }
}

/// Asks any `Show` value for its text and discards it.
pub fn call<T: Show>(obj: &T) {
    obj.show();
}

} // verus!
