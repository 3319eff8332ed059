use rand::rngs::ThreadRng;
use rand::RngExt;
use vstd::prelude::*;

verus! {

/// The generator handle of `rand`, carried through opaquely.
#[verifier::external_type_specification]
#[verifier::external_body]
pub struct ExThreadRng(ThreadRng);

/// Calls `rand::rng()`, which hands out the thread-local generator. Nothing
/// is claimed of it (it panics only if the system source of randomness fails
/// while seeding, which no argument can rule out).
#[verifier::external_body]
fn thread_rng() -> ThreadRng {
    rand::rng()
}

/// Calls `RngExt::random_range` with the range `low..high`. The source
/// shows that it panics on an empty range and otherwise returns a value of
/// the range; which value depends on chance, so no more is claimed.
#[verifier::external_body]
fn random_range(rng: &mut ThreadRng, low: u16, high: u16) -> (r: u16)
    requires
        low < high,
    ensures
        low <= r < high,
{
    rng.random_range(low..high)
}

/// Calls `RngExt::random_ratio`, true with probability
/// `numerator / denominator`. The documentation promises `true` when the two
/// are equal and `false` when the numerator is zero, and a panic when the
/// denominator is zero or below the numerator; otherwise the outcome depends
/// on chance and nothing more is claimed.
#[verifier::external_body]
fn random_ratio(rng: &mut ThreadRng, numerator: u32, denominator: u32) -> (r: bool)
    requires
        0 < denominator,
        numerator <= denominator,
    ensures
        numerator == denominator ==> r,
        numerator == 0 ==> !r,
{
    rng.random_ratio(numerator, denominator)
}

/// The snowflake that food may show as.
pub const SNOWFLAKE: char = '\u{2744}';

/// The parcel that food may show as.
pub const PARCEL: char = '\u{1F4E6}';

/// A piece of food: its cell and the symbol that shows it.
pub struct Food {
    pub x: u16,
    pub y: u16,
    pub symbol: char,
}

/// The food lies on the `width` by `height` screen outside its bottom row,
/// which holds the status line, and shows as one of the two food symbols.
pub open spec fn placed(food: Food, width: u16, height: u16) -> bool {
    &&& food.x < width
    &&& food.y < height - 1
    &&& food.symbol == SNOWFLAKE || food.symbol == PARCEL
}

/// Placed food is on the screen and never on its bottom row, the status
/// row; it shows as a snowflake or a parcel.
pub proof fn law_food_off_the_status_row(food: Food, width: u16, height: u16)
    requires
        placed(food, width, height),
    ensures
        food.x < width,
        food.y < height,
        food.y != height - 1,
        food.symbol == '\u{2744}' || food.symbol == '\u{1F4E6}',
{
}

impl Food {
    /// The food that the draws give: at column `x`, row `y`, shown as a
    /// snowflake when the coin fell heads and as a parcel otherwise.
    pub fn from_draws(x: u16, y: u16, heads: bool) -> (food: Food)
        ensures
            food.x == x,
            food.y == y,
            food.symbol == (if heads { SNOWFLAKE } else { PARCEL }),
    {
        let symbol = if heads {
            SNOWFLAKE
        } else {
            PARCEL
        };
        Food { x, y, symbol }
    }

    /// Food at a random cell of a `width` by `height` screen, outside the
    /// status row, with a symbol picked by a fair coin.
    pub fn new(width: u16, height: u16) -> (food: Food)
        requires
            width > 0,
            height > 1,
        ensures
            placed(food, width, height),
    {
        let mut rng = thread_rng();
        let x = random_range(&mut rng, 0, width);
        let y = random_range(&mut rng, 0, height.saturating_sub(1));
        let heads = random_ratio(&mut rng, 1, 2);
        Food::from_draws(x, y, heads)
    }

    /// Moves the food to a new random cell and picks its symbol anew.
    pub fn respawn(&mut self, width: u16, height: u16)
        requires
            width > 0,
            height > 1,
        ensures
            placed(*final(self), width, height),
    {
        let mut rng = thread_rng();
        let x = random_range(&mut rng, 0, width);
        let y = random_range(&mut rng, 0, height.saturating_sub(1));
        let heads = random_ratio(&mut rng, 1, 2);
        *self = Food::from_draws(x, y, heads);
    }
}

} // verus!
