use vstd::prelude::*;

verus! {

/// A shoe, described by its size and its style.
#[derive(PartialEq, Debug)]
pub struct Shoe {
    pub size: u32,
    pub style: String,
}

/// Keeps exactly the shoes of the given size, in their original order.
pub fn shoes_in_my_size(shoes: Vec<Shoe>, size: u32) -> (fitting: Vec<Shoe>)
    ensures
        fitting@ == shoes@.filter(|shoe: Shoe| shoe.size == size),
{
    let ghost all = shoes@;
    let mut rest = shoes;
    let mut fitting: Vec<Shoe> = Vec::new();
    let ghost i: int = 0;
    while rest.len() > 0
        invariant
            0 <= i <= all.len(),
            rest@ == all.skip(i),
            fitting@ == all.take(i).filter(|shoe: Shoe| shoe.size == size),
        decreases rest@.len(),
    {
        let shoe = rest.remove(0);
        if shoe.size == size {
            fitting.push(shoe);
        }
        proof {
            assert(rest@ =~= all.skip(i + 1));
            reveal(Seq::filter);
            assert(all.take(i + 1).drop_last() =~= all.take(i));
            assert(all.take(i + 1).last() == all[i]);
            i = i + 1;
        }
    }
    proof {
        assert(all.take(i) =~= all);
    }
    fitting
}

} // verus!
