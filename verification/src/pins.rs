//! The pool of pins that are free to be assigned, and the choice of the
//! three pins of the Modbus link.
//!
//! A pin that is taken from the pool never returns to it.

use crate::storage::PinConfiguration;
use vstd::prelude::*;

verus! {

/// Why no pins could be assigned.
#[derive(Clone, Copy, Debug, PartialEq, Eq, Structural)]
pub enum PinError {
    /// Fewer than three pins are free.
    PinUnavailable,
}

/// The pins that were assigned to the link.
#[derive(Clone, Copy, Debug, PartialEq, Eq, Structural)]
pub struct PinClaim {
    pub pins: PinConfiguration,
    /// The configured pins were not all free, so the first free pins were
    /// taken in their place. The new layout is then to be stored.
    pub fallback: bool,
}

/// The pool without pin `index`, and whether the pin was free.
pub open spec fn take(pool: Seq<bool>, index: int) -> (Seq<bool>, bool) {
    if 0 <= index < pool.len() && pool[index] {
        (pool.update(index, false), true)
    } else {
        (pool, false)
    }
}

/// The lowest free pin from `from` on; the length of the pool where there is
/// none.
pub open spec fn first_free(pool: Seq<bool>, from: int) -> int
    decreases pool.len() - from,
{
    if from < 0 || from >= pool.len() {
        pool.len() as int
    } else if pool[from] {
        from
    } else {
        first_free(pool, from + 1)
    }
}

/// The choice of the link's pins. The configured pins are taken one after
/// the other; where one of them is not free, the three lowest pins that are
/// free after that are taken in their place.
pub open spec fn claim(pool: Seq<bool>, config: PinConfiguration) -> (
    Seq<bool>,
    Result<PinClaim, PinError>,
) {
    let (p1, tx) = take(pool, config.modbus_tx as int);
    let (p2, rx) = take(p1, config.modbus_rx as int);
    let (p3, de) = take(p2, config.modbus_de_re as int);
    if tx && rx && de {
        (p3, Ok(PinClaim { pins: config, fallback: false }))
    } else {
        let a = first_free(p3, 0);
        let q1 = take(p3, a).0;
        let b = first_free(q1, 0);
        let q2 = take(q1, b).0;
        let c = first_free(q2, 0);
        let q3 = take(q2, c).0;
        if c < pool.len() {
            (
                q3,
                Ok(
                    PinClaim {
                        pins: PinConfiguration {
                            modbus_tx: a as u32,
                            modbus_rx: b as u32,
                            modbus_de_re: c as u32,
                        },
                        fallback: true,
                    },
                ),
            )
        } else {
            (q3, Err(PinError::PinUnavailable))
        }
    }
}

/// `first_free` is what its name says: the pin that it gives is free, no
/// pin between `from` and it is, and where it gives none, none is free.
pub proof fn lemma_first_free(pool: Seq<bool>, from: int)
    requires
        0 <= from,
    ensures
        from <= first_free(pool, from) || first_free(pool, from) == pool.len(),
        first_free(pool, from) <= pool.len(),
        first_free(pool, from) < pool.len() ==> pool[first_free(pool, from)],
        forall|i: int| from <= i < first_free(pool, from) && i < pool.len() ==> !pool[i],
    decreases pool.len() - from,
{
    if from < pool.len() && !pool[from] {
        lemma_first_free(pool, from + 1);
    }
}

/// Which pins are free. The pool cannot hold more pins than an index of the
/// pin layout can name.
pub struct PinPool {
    free: Vec<bool>,
}

impl View for PinPool {
    type V = Seq<bool>;

    closed spec fn view(&self) -> Seq<bool> {
        self.free@
    }
}

impl PinPool {
    /// A pool of the pins that `free` marks.
    pub fn new(free: Vec<bool>) -> (r: Self)
        ensures
            r@ == free@,
    {
        PinPool { free }
    }

    /// Whether pin `index` is in the pool.
    pub fn is_free(&self, index: usize) -> (r: bool)
        ensures
            r == (index < self@.len() && self@[index as int]),
    {
        index < self.free.len() && self.free[index]
    }

    /// Takes pin `index` out of the pool, if it is there and free.
    pub fn take(&mut self, index: usize) -> (r: bool)
        ensures
            (final(self)@, r) == take(old(self)@, index as int),
    {
        if index < self.free.len() && self.free[index] {
            self.free.set(index, false);
            true
        } else {
            false
        }
    }

    /// Takes the lowest free pin out of the pool.
    pub fn take_first(&mut self) -> (r: Option<usize>)
        ensures
            final(self)@ == take(old(self)@, first_free(old(self)@, 0)).0,
            match r {
                Some(index) => index == first_free(old(self)@, 0) && index < old(self)@.len(),
                None => first_free(old(self)@, 0) == old(self)@.len(),
            },
    {
        let mut i: usize = 0;
        while i < self.free.len()
            invariant
                i <= self.free.len(),
                self.free@ == old(self)@,
                first_free(old(self)@, 0) == first_free(old(self)@, i as int),
            decreases self.free.len() - i,
        {
            if self.free[i] {
                self.free.set(i, false);
                return Some(i);
            }
            i = i + 1;
        }
        None
    }

    /// Assigns the pins of the Modbus link: the configured ones where all
    /// three are free, else the three lowest free ones.
    pub fn claim_uart(&mut self, config: &PinConfiguration) -> (r: Result<PinClaim, PinError>)
        requires
            old(self)@.len() <= u32::MAX,
        ensures
            (final(self)@, r) == claim(old(self)@, *config),
    {
        let tx = self.take(config.modbus_tx as usize);
        let rx = self.take(config.modbus_rx as usize);
        let de = self.take(config.modbus_de_re as usize);
        if tx && rx && de {
            return Ok(PinClaim { pins: *config, fallback: false });
        }
        let a = self.take_first();
        let b = self.take_first();
        let c = self.take_first();
        match (a, b, c) {
            (Some(a), Some(b), Some(c)) => Ok(
                PinClaim {
                    pins: PinConfiguration {
                        modbus_tx: a as u32,
                        modbus_rx: b as u32,
                        modbus_de_re: c as u32,
                    },
                    fallback: true,
                },
            ),
            _ => Err(PinError::PinUnavailable),
        }
    }
}

/// The pins that are assigned are three different pins that were free, and
/// they are free no more. No pin becomes free by an assignment.
pub proof fn law_claim_takes_free_pins(pool: Seq<bool>, config: PinConfiguration)
    requires
        pool.len() <= u32::MAX,
    ensures
        claim(pool, config).0.len() == pool.len(),
        forall|i: int| 0 <= i < pool.len() && claim(pool, config).0[i] ==> pool[i],
        claim(pool, config).1 matches Ok(claimed) ==> {
            let after = claim(pool, config).0;
            let tx = claimed.pins.modbus_tx as int;
            let rx = claimed.pins.modbus_rx as int;
            let de = claimed.pins.modbus_de_re as int;
            &&& tx != rx && rx != de && tx != de
            &&& tx < pool.len() && rx < pool.len() && de < pool.len()
            &&& pool[tx] && pool[rx] && pool[de]
            &&& !after[tx] && !after[rx] && !after[de]
        },
{
    let (p1, tx) = take(pool, config.modbus_tx as int);
    let (p2, rx) = take(p1, config.modbus_rx as int);
    let (p3, de) = take(p2, config.modbus_de_re as int);
    let a = first_free(p3, 0);
    let q1 = take(p3, a).0;
    let b = first_free(q1, 0);
    let q2 = take(q1, b).0;
    let c = first_free(q2, 0);
    lemma_first_free(p3, 0);
    lemma_first_free(q1, 0);
    lemma_first_free(q2, 0);
}

/// The configured pins are assigned exactly when all three are free and no
/// two of them are the same pin. Then no other pin leaves the pool.
pub proof fn law_claim_keeps_layout(pool: Seq<bool>, config: PinConfiguration)
    requires
        pool.len() <= u32::MAX,
    ensures
        ({
            let tx = config.modbus_tx as int;
            let rx = config.modbus_rx as int;
            let de = config.modbus_de_re as int;
            let fits = tx < pool.len() && rx < pool.len() && de < pool.len() && pool[tx]
                && pool[rx] && pool[de] && tx != rx && rx != de && tx != de;
            &&& fits <==> claim(pool, config).1 == Ok::<PinClaim, PinError>(
                PinClaim { pins: config, fallback: false },
            )
            &&& !fits ==> (claim(pool, config).1 matches Ok(claimed) ==> claimed.fallback)
            &&& fits ==> forall|i: int|
                0 <= i < pool.len() && i != tx && i != rx && i != de ==> claim(pool, config).0[i]
                    == pool[i]
        }),
{
}

/// Where the configured pins are not all free, the pins that take their
/// place are the three lowest that are free once the configured ones have
/// been tried, in rising order; and where there are not three such pins,
/// none are assigned.
pub proof fn law_claim_falls_back_to_lowest(pool: Seq<bool>, config: PinConfiguration)
    requires
        pool.len() <= u32::MAX,
    ensures
        ({
            let tried = take(
                take(take(pool, config.modbus_tx as int).0, config.modbus_rx as int).0,
                config.modbus_de_re as int,
            ).0;
            &&& claim(pool, config).1 matches Ok(claimed) ==> (claimed.fallback ==> {
                let tx = claimed.pins.modbus_tx as int;
                let rx = claimed.pins.modbus_rx as int;
                let de = claimed.pins.modbus_de_re as int;
                &&& tx < rx < de
                &&& tried[tx] && tried[rx] && tried[de]
                &&& forall|i: int| 0 <= i < de && i != tx && i != rx ==> !tried[i]
            })
            &&& claim(pool, config).1 is Err ==> forall|i: int, j: int, k: int|
                0 <= i < j < k < pool.len() ==> !(tried[i] && tried[j] && tried[k])
        }),
{
    let p3 = take(
        take(take(pool, config.modbus_tx as int).0, config.modbus_rx as int).0,
        config.modbus_de_re as int,
    ).0;
    let a = first_free(p3, 0);
    let q1 = take(p3, a).0;
    let b = first_free(q1, 0);
    let q2 = take(q1, b).0;
    let c = first_free(q2, 0);
    lemma_first_free(p3, 0);
    lemma_first_free(q1, 0);
    lemma_first_free(q2, 0);
    assert forall|i: int| 0 <= i < c && c < pool.len() && i != a && i != b implies !p3[i] by {
        if i > b {
            assert(!q2[i]);
        } else if i > a {
            assert(!q1[i]);
        }
    }
    assert forall|i: int, j: int, k: int|
        0 <= i < j < k < pool.len() && c == pool.len() implies !(p3[i] && p3[j] && p3[k]) by {
        if p3[i] && p3[j] && p3[k] {
            assert(a <= i);
            assert(q1[j] && q1[k]);
            assert(b <= j);
            assert(q2[k]);
        }
    }
}

} // verus!
