//! LED manipulation: selections over the 24-LED ring, the 28-byte LED
//! report, and the animation contract shared by all effects.

use vstd::prelude::*;
use crate::device::Device;
use crate::device::DeviceError;

verus! {

/// Identifier for a quadrant of the LED ring.
///
/// Quadrants are not fully disjoint: they share an LED at the extremities.
#[derive(Debug, Copy, Clone, Eq, Hash, PartialEq, Structural)]
pub enum Quadrant {
    BottomLeft,
    TopLeft,
    TopRight,
    BottomRight,
}

impl Quadrant {
    /// The quadrant with the given index, counted from the bottom left.
    pub fn from_u8(quadrant: u8) -> (r: Option<Self>)
        ensures
            quadrant == 0 ==> r == Some(Quadrant::BottomLeft),
            quadrant == 1 ==> r == Some(Quadrant::TopLeft),
            quadrant == 2 ==> r == Some(Quadrant::TopRight),
            quadrant == 3 ==> r == Some(Quadrant::BottomRight),
            quadrant > 3 ==> r is None,
    {
        match quadrant {
            0 => Some(Quadrant::BottomLeft),
            1 => Some(Quadrant::TopLeft),
            2 => Some(Quadrant::TopRight),
            3 => Some(Quadrant::BottomRight),
            _ => None,
        }
    }
}

/// A selection of LEDs in the ring: a 24-slot boolean mask, viewed as the
/// sequence of its slots.
#[derive(Debug, PartialEq, Eq, Hash)]
pub struct LedSelection {
    mask: Vec<bool>,
}

impl Clone for LedSelection {
    /// Cloning a selection preserves it exactly.
    fn clone(&self) -> (r: Self)
        ensures
            r@ == self@,
    {
        proof {
            use_type_invariant(self);
        }
        let mask = self.mask.clone();
        proof {
            assert forall|i: int| 0 <= i < self.mask@.len() implies mask@[i] == self.mask@[i] by {
                assert(cloned::<bool>(self.mask@[i], mask@[i]));
            }
            assert(mask@ =~= self.mask@);
        }
        LedSelection { mask }
    }
}

impl View for LedSelection {
    type V = Seq<bool>;

    closed spec fn view(&self) -> Seq<bool> {
        self.mask@
    }
}

/// Whether ring position `j` falls in the symmetric span of the given
/// radius around `center`. Position offsets are measured clockwise from
/// the center (which wraps modulo 24 in both directions): the span covers
/// the offsets below the radius and those within the radius of the wrap.
pub open spec fn span_selected(center: u8, radius: u8, j: int) -> bool
    recommends
        0 <= j < 24,
{
    let u = (j + 24 - (center as int % 24)) % 24;
    u < radius || 24 - radius <= u
}

/// Whether ring position `j` falls in the arc of `count` contiguous LEDs
/// that starts at `start` and runs clockwise, wrapping around the ring.
pub open spec fn arc_selected(start: u8, count: u8, j: int) -> bool
    recommends
        0 <= j < 24,
{
    (j + 24 - (start as int % 24)) % 24 < count
}

/// Whether ring position `j` falls in quadrant `q`: six contiguous LEDs
/// per quadrant plus the boundary LED shared with the next quadrant, so
/// that the union of two adjacent quadrants shows a continuous arc.
pub open spec fn quadrant_selected(q: u8, j: int) -> bool
    recommends
        q < 4,
        0 <= j < 24,
{
    if q == 3 {
        18 <= j <= 23 || j == 0
    } else {
        6 * q <= j <= 6 * q + 6
    }
}

impl LedSelection {
    #[verifier::type_invariant]
    spec fn inv(self) -> bool {
        self.mask@.len() == 24
    }

    /// The empty selection.
    pub fn new() -> (r: Self)
        ensures
            r@.len() == 24,
            forall|j: int| 0 <= j < 24 ==> !r@[j],
    {
        Self::none()
    }

    /// Select no LED.
    pub fn none() -> (r: Self)
        ensures
            r@.len() == 24,
            forall|j: int| 0 <= j < 24 ==> !r@[j],
    {
        let mut mask: Vec<bool> = Vec::new();
        let mut k: usize = 0;
        while k < 24
            invariant
                mask@.len() == k,
                k <= 24,
                forall|j: int| 0 <= j < k ==> !mask@[j],
            decreases 24 - k,
        {
            mask.push(false);
            k = k + 1;
        }
        LedSelection { mask }
    }

    /// Select every LED in the ring.
    pub fn all() -> (r: Self)
        ensures
            r@.len() == 24,
            forall|j: int| 0 <= j < 24 ==> r@[j],
    {
        let mut mask: Vec<bool> = Vec::new();
        let mut k: usize = 0;
        while k < 24
            invariant
                mask@.len() == k,
                k <= 24,
                forall|j: int| 0 <= j < k ==> mask@[j],
            decreases 24 - k,
        {
            mask.push(true);
            k = k + 1;
        }
        LedSelection { mask }
    }

    /// Select a single LED by index, from 0 to 23.
    pub fn single(index: u8) -> (r: Self)
        requires
            index < 24,
        ensures
            r@.len() == 24,
            forall|j: int| 0 <= j < 24 ==> (r@[j] <==> j == index),
    {
        let mut s = Self::none();
        proof {
            use_type_invariant(&s);
        }
        s.mask[index as usize] = true;
        s
    }

    /// Select an arbitrary set of LEDs by their indices,
    /// each of which must lie in the ring.
    pub fn range(indices: &Vec<u8>) -> (r: Self)
        requires
            forall|k: int| 0 <= k < indices@.len() ==> indices@[k] < 24,
        ensures
            r@.len() == 24,
            forall|j: int| 0 <= j < 24 ==> (r@[j] <==> indices@.contains(j as u8)),
    {
        let mut s = Self::none();
        proof {
            use_type_invariant(&s);
        }
        let mut k: usize = 0;
        while k < indices.len()
            invariant
                s.mask@.len() == 24,
                k <= indices@.len(),
                forall|k2: int| 0 <= k2 < indices@.len() ==> indices@[k2] < 24,
                forall|j: int|
                    0 <= j < 24 ==> (s.mask@[j] <==> indices@.subrange(0, k as int).contains(
                        j as u8,
                    )),
            decreases indices@.len() - k,
        {
            let idx = indices[k];
            s.mask[idx as usize] = true;
            proof {
                assert forall|j: int| 0 <= j < 24 implies (s.mask@[j]
                    <==> indices@.subrange(0, k as int + 1).contains(j as u8)) by {
                    let pre = indices@.subrange(0, k as int);
                    let post = indices@.subrange(0, k as int + 1);
                    assert(post.drop_last() == pre);
                    assert(post.last() == indices@[k as int]);
                    if post.contains(j as u8) {
                        let w = choose|w: int| 0 <= w < post.len() && post[w] == j as u8;
                        assert(w == k as int || pre[w] == j as u8);
                    }
                    if pre.contains(j as u8) {
                        let w = choose|w: int| 0 <= w < pre.len() && pre[w] == j as u8;
                        assert(post[w] == j as u8);
                    }
                    if j == idx as int {
                        assert(post[k as int] == j as u8);
                    }
                }
            }
            k = k + 1;
        }
        proof {
            assert(indices@.subrange(0, indices@.len() as int) == indices@);
        }
        s
    }

    /// Select a diagonal quadrant of LEDs, from 0 to 3.
    pub fn quadrant(quadrant: u8) -> (r: Self)
        requires
            quadrant < 4,
        ensures
            r@.len() == 24,
            forall|j: int| 0 <= j < 24 ==> (r@[j] <==> quadrant_selected(quadrant, j)),
    {
        let mut mask: Vec<bool> = Vec::new();
        let mut k: usize = 0;
        while k < 24
            invariant
                mask@.len() == k,
                k <= 24,
                quadrant < 4,
                forall|j: int| 0 <= j < k ==> (mask@[j] <==> quadrant_selected(quadrant, j)),
            decreases 24 - k,
        {
            let sel = if quadrant == 3 {
                (18 <= k && k <= 23) || k == 0
            } else {
                6 * (quadrant as usize) <= k && k <= 6 * (quadrant as usize) + 6
            };
            mask.push(sel);
            k = k + 1;
        }
        LedSelection { mask }
    }

    /// Select a span of LEDs comprising the center LED plus the adjacent
    /// LEDs within the given radius, wrapping around the ring in both
    /// directions.
    pub fn span(center: u8, radius: u8) -> (r: Self)
        ensures
            r@.len() == 24,
            forall|j: int| 0 <= j < 24 ==> (r@[j] <==> span_selected(center, radius, j)),
    {
        let c: usize = (center as usize) % 24;
        let mut mask: Vec<bool> = Vec::new();
        let mut k: usize = 0;
        while k < 24
            invariant
                mask@.len() == k,
                k <= 24,
                c == center as int % 24,
                forall|j: int| 0 <= j < k ==> (mask@[j] <==> span_selected(center, radius, j)),
            decreases 24 - k,
        {
            let u: usize = (k + 24 - c) % 24;
            let sel = u < radius as usize || (radius as usize <= 24 && 24 - (radius as usize) <= u);
            proof {
                assert(u == (k as int + 24 - (center as int % 24)) % 24);
                if radius >= 24 {
                    assert(u < radius as int);
                }
            }
            mask.push(sel);
            k = k + 1;
        }
        LedSelection { mask }
    }

    /// Select an arc of `count` contiguous LEDs starting at `start` and
    /// running clockwise, wrapping around the ring.
    pub fn arc(start: u8, count: u8) -> (r: Self)
        ensures
            r@.len() == 24,
            forall|j: int| 0 <= j < 24 ==> (r@[j] <==> arc_selected(start, count, j)),
    {
        let c: usize = (start as usize) % 24;
        let mut mask: Vec<bool> = Vec::new();
        let mut k: usize = 0;
        while k < 24
            invariant
                mask@.len() == k,
                k <= 24,
                c == start as int % 24,
                forall|j: int| 0 <= j < k ==> (mask@[j] <==> arc_selected(start, count, j)),
            decreases 24 - k,
        {
            let u: usize = (k + 24 - c) % 24;
            mask.push(u < count as usize);
            k = k + 1;
        }
        LedSelection { mask }
    }

    /// Combine (union) with another selection.
    pub fn or(self, other: LedSelection) -> (r: Self)
        ensures
            r@.len() == 24,
            forall|j: int| 0 <= j < 24 ==> (r@[j] <==> self@[j] || other@[j]),
    {
        proof {
            use_type_invariant(&self);
            use_type_invariant(&other);
        }
        let mut mask: Vec<bool> = Vec::new();
        let mut k: usize = 0;
        while k < 24
            invariant
                mask@.len() == k,
                k <= 24,
                self.mask@.len() == 24,
                other.mask@.len() == 24,
                forall|j: int| 0 <= j < k ==> (mask@[j] <==> self.mask@[j] || other.mask@[j]),
            decreases 24 - k,
        {
            mask.push(self.mask[k] || other.mask[k]);
            k = k + 1;
        }
        LedSelection { mask }
    }

    /// Whether the LED at the given ring index is selected.
    pub fn get(&self, index: u8) -> (r: bool)
        requires
            index < 24,
        ensures
            r == self@[index as int],
    {
        proof {
            use_type_invariant(self);
        }
        self.mask[index as usize]
    }
}

impl Default for LedSelection {
    /// By default no LED is selected.
    fn default() -> (r: Self)
        ensures
            r@.len() == 24,
            forall|j: int| 0 <= j < 24 ==> !r@[j],
    {
        Self::none()
    }
}

/// The 28 bytes of the default LED report: report identifier 2, ring
/// length 25 (24 ring LEDs plus the separately accounted Fuji LED), and
/// every intensity off. It instructs the controller to disable host LED
/// override and doubles as the cleared state.
pub open spec fn default_led_bytes() -> Seq<u8> {
    Seq::new(28, |i: int| if i == 0 { 2u8 } else if i == 1 { 25u8 } else { 0u8 })
}

/// Structure representing a report for LED activation on the controller,
/// viewed as its 28 wire bytes: byte 0 the report identifier, byte 1 the
/// ring length, byte 2 the Fuji LED intensity, bytes 3 to 26 the ring
/// intensities for positions 0 to 23, byte 27 reserved.
#[derive(Debug, PartialEq, Eq)]
pub struct LedReport {
    data: Vec<u8>,
}

impl Clone for LedReport {
    /// Cloning a report preserves its wire bytes exactly.
    fn clone(&self) -> (r: Self)
        ensures
            r@ == self@,
    {
        proof {
            use_type_invariant(self);
        }
        let data = self.data.clone();
        proof {
            assert forall|i: int| 0 <= i < self.data@.len() implies data@[i] == self.data@[i] by {
                assert(cloned::<u8>(self.data@[i], data@[i]));
            }
            assert(data@ =~= self.data@);
        }
        LedReport { data }
    }
}

impl View for LedReport {
    type V = Seq<u8>;

    closed spec fn view(&self) -> Seq<u8> {
        self.data@
    }
}

/// The intensity of ring LED `j` in the report.
pub open spec fn ring_at(r: LedReport, j: int) -> u8
    recommends
        0 <= j < 24,
{
    r@[3 + j]
}

/// The intensity a saturating addition leaves behind: the sum clamped to
/// the intensity range.
pub open spec fn sat_add_value(cur: u8, delta: i16) -> u8 {
    if cur + delta < 0 {
        0u8
    } else if cur + delta > 255 {
        255u8
    } else {
        (cur + delta) as u8
    }
}

impl LedReport {
    #[verifier::type_invariant]
    spec fn inv(self) -> bool {
        self.data@.len() == 28 && self.data@[0] == 2 && self.data@[1] == 25
    }

    /// Create a new LED report. By default, an LED report will turn off
    /// all LEDs.
    pub fn new() -> (r: Self)
        ensures
            r@ == default_led_bytes(),
    {
        let mut data: Vec<u8> = Vec::new();
        data.push(2);
        data.push(25);
        let mut k: usize = 2;
        while k < 28
            invariant
                data@.len() == k,
                2 <= k <= 28,
                data@[0] == 2,
                data@[1] == 25,
                forall|j: int| 2 <= j < k ==> data@[j] == 0,
            decreases 28 - k,
        {
            data.push(0);
            k = k + 1;
        }
        let r = LedReport { data };
        proof {
            assert(r@ =~= default_led_bytes());
        }
        r
    }

    /// Create a new LED report with the whole ring (and the reserved
    /// trailing byte) at the given intensity; the Fuji LED stays off.
    pub fn filled(value: u8) -> (r: Self)
        ensures
            r@.len() == 28,
            r@[0] == 2 && r@[1] == 25 && r@[2] == 0,
            forall|j: int| 3 <= j < 28 ==> r@[j] == value,
    {
        let mut x = Self::new();
        x.fill(value);
        x
    }

    /// Turn the whole ring of LEDs off.
    pub fn clear(&mut self)
        ensures
            final(self)@.len() == 28,
            forall|j: int|
                0 <= j < 28 ==> final(self)@[j] == (if j >= 3 {
                    0u8
                } else {
                    old(self)@[j]
                }),
    {
        self.fill(0)
    }

    /// Set all LEDs in the ring (and the reserved trailing byte) to the
    /// given intensity.
    pub fn fill(&mut self, value: u8)
        ensures
            final(self)@.len() == 28,
            forall|j: int|
                0 <= j < 28 ==> final(self)@[j] == (if j >= 3 {
                    value
                } else {
                    old(self)@[j]
                }),
    {
        proof {
            use_type_invariant(&*self);
        }
        let mut k: usize = 3;
        while k < 28
            invariant
                self.data@.len() == 28,
                self.data@[0] == 2,
                self.data@[1] == 25,
                3 <= k <= 28,
                forall|j: int| 3 <= j < k ==> self.data@[j] == value,
                forall|j: int| 0 <= j < 3 ==> self.data@[j] == old(self)@[j],
                forall|j: int| k <= j < 28 ==> self.data@[j] == old(self)@[j],
            decreases 28 - k,
        {
            self.data[k] = value;
            k = k + 1;
        }
    }

    /// Set the Fuji LED to an intensity.
    pub fn set_fuji(&mut self, value: u8)
        ensures
            final(self)@.len() == 28,
            forall|j: int|
                0 <= j < 28 ==> final(self)@[j] == (if j == 2 {
                    value
                } else {
                    old(self)@[j]
                }),
    {
        proof {
            use_type_invariant(&*self);
        }
        self.data[2] = value;
    }

    /// Set a single LED in the ring to an intensity.
    pub fn set(&mut self, led: u8, value: u8)
        requires
            led < 24,
        ensures
            final(self)@.len() == 28,
            forall|j: int|
                0 <= j < 28 ==> final(self)@[j] == (if j == 3 + led {
                    value
                } else {
                    old(self)@[j]
                }),
    {
        proof {
            use_type_invariant(&*self);
        }
        self.data[3 + led as usize] = value;
    }

    /// Set a selection of LEDs in the ring to an intensity.
    pub fn set_selection(&mut self, selection: &LedSelection, value: u8)
        ensures
            final(self)@.len() == 28,
            forall|j: int|
                0 <= j < 24 ==> ring_at(*final(self), j) == (if selection@[j] {
                    value
                } else {
                    ring_at(*old(self), j)
                }),
            forall|j: int|
                0 <= j < 28 && !(3 <= j < 27) ==> final(self)@[j] == old(self)@[j],
    {
        proof {
            use_type_invariant(&*self);
            use_type_invariant(selection);
        }
        let mut k: usize = 0;
        while k < 24
            invariant
                self.data@.len() == 28,
                self.data@[0] == 2,
                self.data@[1] == 25,
                selection@.len() == 24,
                k <= 24,
                forall|j: int|
                    0 <= j < k ==> self.data@[3 + j] == (if #[trigger] selection@[j] {
                        value
                    } else {
                        old(self)@[3 + j]
                    }),
                forall|j: int| 3 + k <= j < 27 ==> self.data@[j] == old(self)@[j],
                forall|j: int| 0 <= j < 28 && !(3 <= j < 27) ==> self.data@[j] == old(self)@[j],
            decreases 24 - k,
        {
            if selection.get(k as u8) {
                self.data[3 + k] = value;
            }
            k = k + 1;
        }
    }

    /// Invert the intensity of one LED in the ring.
    pub fn invert(&mut self, led: u8)
        requires
            led < 24,
        ensures
            final(self)@.len() == 28,
            forall|j: int|
                0 <= j < 28 ==> final(self)@[j] == (if j == 3 + led {
                    !old(self)@[j]
                } else {
                    old(self)@[j]
                }),
    {
        proof {
            use_type_invariant(&*self);
        }
        let cur = self.data[3 + led as usize];
        self.data[3 + led as usize] = !cur;
    }

    /// Invert the intensities of a selection of LEDs in the ring.
    pub fn invert_selection(&mut self, selection: &LedSelection)
        ensures
            final(self)@.len() == 28,
            forall|j: int|
                0 <= j < 24 ==> ring_at(*final(self), j) == (if selection@[j] {
                    !ring_at(*old(self), j)
                } else {
                    ring_at(*old(self), j)
                }),
            forall|j: int|
                0 <= j < 28 && !(3 <= j < 27) ==> final(self)@[j] == old(self)@[j],
    {
        proof {
            use_type_invariant(&*self);
            use_type_invariant(selection);
        }
        let mut k: usize = 0;
        while k < 24
            invariant
                self.data@.len() == 28,
                self.data@[0] == 2,
                self.data@[1] == 25,
                selection@.len() == 24,
                k <= 24,
                forall|j: int|
                    0 <= j < k ==> self.data@[3 + j] == (if #[trigger] selection@[j] {
                        !old(self)@[3 + j]
                    } else {
                        old(self)@[3 + j]
                    }),
                forall|j: int| 3 + k <= j < 27 ==> self.data@[j] == old(self)@[j],
                forall|j: int| 0 <= j < 28 && !(3 <= j < 27) ==> self.data@[j] == old(self)@[j],
            decreases 24 - k,
        {
            if selection.get(k as u8) {
                let cur = self.data[3 + k];
                self.data[3 + k] = !cur;
            }
            k = k + 1;
        }
    }

    /// Add a (possibly negative) intensity delta to one LED in the ring,
    /// clamping the result to the intensity range.
    pub fn saturating_add(&mut self, led: u8, value_delta: i16)
        requires
            led < 24,
        ensures
            final(self)@.len() == 28,
            forall|j: int|
                0 <= j < 28 ==> final(self)@[j] == (if j == 3 + led {
                    sat_add_value(old(self)@[j], value_delta)
                } else {
                    old(self)@[j]
                }),
    {
        proof {
            use_type_invariant(&*self);
        }
        let cur = self.data[3 + led as usize];
        let sum: i32 = cur as i32 + value_delta as i32;
        let out: u8 = if sum < 0 {
            0
        } else if sum > 255 {
            255
        } else {
            sum as u8
        };
        self.data[3 + led as usize] = out;
    }

    /// Add a (possibly negative) intensity delta to a selection of LEDs
    /// in the ring, clamping each result to the intensity range.
    pub fn saturating_add_selection(&mut self, selection: &LedSelection, value_delta: i16)
        ensures
            final(self)@.len() == 28,
            forall|j: int|
                0 <= j < 24 ==> ring_at(*final(self), j) == (if selection@[j] {
                    sat_add_value(ring_at(*old(self), j), value_delta)
                } else {
                    ring_at(*old(self), j)
                }),
            forall|j: int|
                0 <= j < 28 && !(3 <= j < 27) ==> final(self)@[j] == old(self)@[j],
    {
        proof {
            use_type_invariant(&*self);
            use_type_invariant(selection);
        }
        let mut k: usize = 0;
        while k < 24
            invariant
                self.data@.len() == 28,
                self.data@[0] == 2,
                self.data@[1] == 25,
                selection@.len() == 24,
                k <= 24,
                forall|j: int|
                    0 <= j < k ==> self.data@[3 + j] == (if #[trigger] selection@[j] {
                        sat_add_value(old(self)@[3 + j], value_delta)
                    } else {
                        old(self)@[3 + j]
                    }),
                forall|j: int| 3 + k <= j < 27 ==> self.data@[j] == old(self)@[j],
                forall|j: int| 0 <= j < 28 && !(3 <= j < 27) ==> self.data@[j] == old(self)@[j],
            decreases 24 - k,
        {
            if selection.get(k as u8) {
                let cur = self.data[3 + k];
                let sum: i32 = cur as i32 + value_delta as i32;
                let out: u8 = if sum < 0 {
                    0
                } else if sum > 255 {
                    255
                } else {
                    sum as u8
                };
                self.data[3 + k] = out;
            }
            k = k + 1;
        }
    }

    /// The intensity of one LED in the ring.
    pub fn get(&self, led: u8) -> (r: u8)
        requires
            led < 24,
        ensures
            r == ring_at(*self, led as int),
    {
        proof {
            use_type_invariant(self);
        }
        self.data[3 + led as usize]
    }

    /// The intensity of the Fuji LED.
    pub fn get_fuji(&self) -> (r: u8)
        ensures
            r == self@[2],
    {
        proof {
            use_type_invariant(self);
        }
        self.data[2]
    }

    /// The raw wire bytes of the report.
    pub fn bytes(&self) -> (r: &Vec<u8>)
        ensures
            r@ == self@,
    {
        &self.data
    }

    /// Send this report as an HID message to the given device.
    pub fn send<D: Device>(&self, device: &mut D) -> (r: Result<(), DeviceError>)
        ensures
            final(device).pending() == old(device).pending(),
            final(device).reliable() == old(device).reliable(),
            old(device).reliable() ==> r is Ok,
            r is Ok ==> final(device).sent() == old(device).sent().push(self@),
            r is Err ==> final(device).sent() == old(device).sent(),
    {
        match device.write(self.data.as_slice()) {
            Ok(_) => Ok(()),
            Err(e) => Err(e),
        }
    }
}

impl Default for LedReport {
    /// By default, an LED report will turn off all LEDs.
    fn default() -> (r: Self)
        ensures
            r@ == default_led_bytes(),
    {
        Self::new()
    }
}

/// The outcome an animation reports after each update.
#[derive(Debug, Copy, Clone, Eq, Hash, PartialEq, Structural)]
pub enum AnimationEvent {
    /// the animation is running
    Running,
    /// the animation is ended and should receive no more update events
    Ended,
}

impl Default for AnimationEvent {
    fn default() -> (r: Self)
        ensures
            r == AnimationEvent::Running,
    {
        AnimationEvent::Running
    }
}

/// A behavioral construct for effects and animations on the controller's
/// LEDs. Every animation shares this lifecycle: construct it, rebase its
/// origin with `reset`, then feed it monotonically growing ticks through
/// `update`, which paints the given report. An animation that answers
/// `Ended` must be re-armed with `reset` before further updates.
pub trait LedAnimation: Sized {
    /// Whether the animation's parameters are well formed.
    spec fn inv(&self) -> bool;

    /// Whether the animation may be updated at the given tick: its origin
    /// must not lie in the future.
    spec fn ready_at(&self, ticks: u64) -> bool;

    /// Reset the effect's state, rebasing its origin at the given tick.
    /// This generally means a rewind; in stateless animations it is a
    /// no-op.
    fn reset(&mut self, ticks: u64)
        requires
            old(self).inv(),
        ensures
            final(self).inv(),
            forall|t: u64| t >= ticks ==> final(self).ready_at(t),
    ;

    /// Update the state of the animation, applying the intended effects
    /// on the given report. Returns `Ended` if the animation ends and no
    /// longer wishes to request LED activations.
    fn update(&mut self, ticks: u64, report: &mut LedReport) -> (e: AnimationEvent)
        requires
            old(self).inv(),
            old(self).ready_at(ticks),
        ensures
            final(self).inv(),
            forall|t: u64| t >= ticks ==> final(self).ready_at(t),
    ;
}

} // verus!
