//! What is shown in place of an answer while it is typed.

use rand::rngs::StdRng;
use rand::{Rng, SeedableRng};
use vstd::prelude::*;
use vstd::string::*;

use crate::greeter::{content, Greeter, GreeterView, SecretDisplay, SecretDisplayView};
use crate::text::push;

verus! {

/// A generator of numbers.
#[verifier::external_type_specification]
#[verifier::external_body]
pub struct ExStdRng(StdRng);

/// `SeedableRng::seed_from_u64`: a generator that begins from the given
/// seed.
#[verifier::external_body]
fn seeded(seed: u64) -> StdRng {
    StdRng::seed_from_u64(seed)
}

/// `Rng::gen_range` on the range from zero to `bound`, which must not be
/// empty: a number below `bound`.
#[verifier::external_body]
fn pick(generator: &mut StdRng, bound: usize) -> (r: usize)
    requires
        bound > 0,
    ensures
        r < bound,
{
    generator.gen_range(0..bound)
}

/// The text made of the characters of `pool` at the given positions.
pub open spec fn picked(pool: Seq<char>, picks: Seq<usize>) -> Seq<char> {
    picks.map_values(|at: usize| pool[at as int])
}

/// The text of `count` times the character `c`.
pub open spec fn repeated(c: char, count: nat) -> Seq<char> {
    Seq::new(count, |i: int| c)
}

/// Whether every position of a list is within a pool of `len` characters.
pub open spec fn within(picks: Seq<usize>, len: nat) -> bool {
    forall|i: int| 0 <= i < picks.len() ==> #[trigger] picks[i] < len
}

impl GreeterView {
    /// Whether the answer is shown in some form while it is typed: always
    /// unless it is a secret and secrets are hidden.
    pub open spec fn shows_answer(self) -> bool {
        !self.asking_for_secret || self.secret_display != SecretDisplayView::Hidden
    }

    /// The pool of characters that stand for the characters of the answer,
    /// where the answer is a secret that is shown as characters.
    pub open spec fn mask_pool(self) -> Option<Seq<char>> {
        match self.secret_display {
            SecretDisplayView::Character(pool) => if self.asking_for_secret {
                Some(pool)
            } else {
                None
            },
            SecretDisplayView::Hidden => None,
        }
    }
}

/// Makes the text that stands for an answer of `picks.len()` characters:
/// for each character, the character of the pool at the position that was
/// picked for it.
pub fn masked_with(pool: &str, picks: &Vec<usize>) -> (r: String)
    requires
        within(picks@, pool@.len()),
    ensures
        r@ == picked(pool@, picks@),
{
    let mut r = String::new();
    let mut i: usize = 0;
    while i < picks.len()
        invariant
            i <= picks.len(),
            within(picks@, pool@.len()),
            r@ == picked(pool@, picks@.subrange(0, i as int)),
        decreases picks.len() - i,
    {
        push(&mut r, pool.get_char(picks[i]));
        assert(r@ =~= picked(pool@, picks@.subrange(0, i + 1)));
        i += 1;
    }
    assert(picks@.subrange(0, picks.len() as int) == picks@);
    r
}

/// Picks a position in a pool of `len` characters for each of `count`
/// characters.
fn picks(count: usize, len: usize) -> (r: Vec<usize>)
    requires
        len > 0,
    ensures
        r.len() == count,
        within(r@, len as nat),
{
    let mut generator = seeded(0);
    let mut r: Vec<usize> = Vec::new();
    let mut i: usize = 0;
    while i < count
        invariant
            i <= count,
            len > 0,
            r.len() == i,
            within(r@, len as nat),
        decreases count - i,
    {
        let at = pick(&mut generator, len);
        r.push(at);
        i += 1;
    }
    r
}

/// The text of `count` times the character `c`.
fn repeat(c: char, count: usize) -> (r: String)
    ensures
        r@ == repeated(c, count as nat),
{
    let mut r = String::new();
    let mut i: usize = 0;
    assert(r@ =~= repeated(c, 0));
    while i < count
        invariant
            i <= count,
            r@ == repeated(c, i as nat),
        decreases count - i,
    {
        push(&mut r, c);
        assert(r@ =~= repeated(c, (i + 1) as nat));
        i += 1;
    }
    r
}

/// Makes what is shown in place of the answer while it is typed.
///
/// Nothing is shown for a secret where secrets are hidden. A secret that is
/// shown as characters is shown as one character of the pool for each of
/// its own: the same character throughout where the pool has one, else
/// characters that are picked from the pool. Any other answer is shown as
/// it is.
pub fn answer_display(greeter: &Greeter) -> (r: Option<String>)
    requires
        greeter@.mask_pool() is Some ==> greeter@.mask_pool()->0.len() > 0,
    ensures
        r is Some <==> greeter@.shows_answer(),
        r is Some ==> match greeter@.mask_pool() {
            Some(pool) => if pool.len() == 1 {
                r->0@ == repeated(pool[0], greeter@.buffer.len())
            } else {
                exists|picks: Seq<usize>|
                    {
                        &&& picks.len() == greeter@.buffer.len()
                        &&& within(picks, pool.len())
                        &&& r->0@ == #[trigger] picked(pool, picks)
                    }
            },
            None => r->0@ == greeter@.buffer,
        },
{
    proof {
        reveal(content);
    }
    match (greeter.asking_for_secret, &greeter.secret_display) {
        (true, SecretDisplay::Hidden) => None,
        (true, SecretDisplay::Character(pool)) => {
            let count = greeter.buffer.as_str().unicode_len();
            let len = pool.as_str().unicode_len();
            if len == 1 {
                Some(repeat(pool.as_str().get_char(0), count))
            } else {
                let picks = picks(count, len);
                Some(masked_with(pool.as_str(), &picks))
            }
        },
        _ => Some(greeter.buffer.clone()),
    }
}

} // verus!
