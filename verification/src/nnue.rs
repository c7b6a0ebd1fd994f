//! The network evaluator: a quantised two-perspective network of 768 inputs,
//! a hidden layer and one output, with accumulators that follow the board
//! move by move.

use crate::chess::{Board, Piece, Square};
use crate::position::Position;
use vstd::prelude::*;

verus! {

/// The number of inputs of one perspective: two colours, six roles, 64 squares.
pub const FEATURES: usize = 768;

/// The widest hidden layer a network may have.
pub const MAX_HIDDEN: usize = 1024;

/// The quantisation of the hidden layer.
pub const QA: i16 = 255;

/// The quantisation of the output layer.
pub const QB: i16 = 64;

/// Both quantisations together.
pub const QAB: i16 = 255 * 64;

/// The scale of an evaluation, in centipawns.
pub const SCALE: i32 = 400;

/// The number of accumulator pairs of a stack, one for each ply.
pub const STACK_SIZE: usize = 128;

/// No evaluation is larger in size than this.
pub const EVAL_LIMIT: i32 = 500_000_000;

/// The clipped value of a hidden unit: `x` held between 0 and `QA`.
pub open spec fn spec_crelu(x: i16) -> int {
    if x < 0 {
        0
    } else if x > QA {
        QA as int
    } else {
        x as int
    }
}

/// The squared clipped value of a hidden unit.
pub open spec fn spec_screlu(x: i16) -> int {
    spec_crelu(x) * spec_crelu(x)
}

/// Clipped ReLU.
pub fn crelu(x: i16) -> (r: i32)
    ensures
        r == spec_crelu(x),
        0 <= r <= 255,
{
    if x < 0 {
        0
    } else if x > QA {
        QA as i32
    } else {
        x as i32
    }
}

/// Squared clipped ReLU.
pub fn screlu(x: i16) -> (r: i32)
    ensures
        r == spec_screlu(x),
        0 <= r <= 65025,
{
    let v = crelu(x);
    assert(0 <= v * v <= 65025) by (nonlinear_arith)
        requires
            0 <= v <= 255,
    ;
    v * v
}

/// The activation of the hidden layer. A network has one, that of its
/// weights.
#[derive(Clone, Copy, Debug, PartialEq, Eq, Structural)]
pub enum Activation {
    CReLU,
    SCReLU,
}

impl Activation {
    /// The activated value of a hidden unit.
    pub open spec fn apply(self, x: i16) -> int {
        match self {
            Activation::CReLU => spec_crelu(x),
            Activation::SCReLU => spec_screlu(x),
        }
    }
}

/// The quotient of `a` by a positive `b`, rounded toward zero.
pub open spec fn quot(a: int, b: int) -> int {
    if a >= 0 {
        a / b
    } else {
        -((-a) / b)
    }
}

/// The 16-bit value that differs from `x` by a multiple of 65536.
pub open spec fn wrap16(x: int) -> i16 {
    (((x + 32768) % 65536) - 32768) as i16
}

/// The 16-bit value that two bytes hold, the low byte first.
pub open spec fn le16(low: u8, high: u8) -> i16 {
    let u = low as int + 256 * (high as int);
    if u < 32768 {
        u as i16
    } else {
        (u - 65536) as i16
    }
}

/// The `k`-th 16-bit value of a byte string.
pub open spec fn le16_at(bytes: Seq<u8>, k: int) -> i16 {
    le16(bytes[2 * k], bytes[2 * k + 1])
}

/// The number of bytes that the weights of a network with `hidden` hidden
/// units take: 768 columns, the bias, two rows of output weights and the
/// output bias, two bytes each.
pub open spec fn blob_len(hidden: int) -> int {
    2 * (771 * hidden + 1)
}

/// The weighted sum of the first `n` activated values of `acc`, with the
/// weights taken from `offset` on.
pub open spec fn dot(
    activation: Activation,
    acc: Seq<i16>,
    weights: Seq<i16>,
    offset: int,
    n: int,
) -> int
    decreases n,
{
    if n <= 0 {
        0
    } else {
        dot(activation, acc, weights, offset, n - 1) + activation.apply(acc[n - 1]) * (
        weights[offset + n - 1] as int)
    }
}

/// The number of the input that a piece on a square switches on: in the
/// accumulator of White where `white_view` holds, else in that of Black.
/// With `c` the number of the piece's colour, 0 for Black and 1 for White,
/// the input of White is `c * 384 + (role - 1) * 64` and the square mirrored
/// top to bottom, that of Black `(1 - c) * 384 + (role - 1) * 64` and the
/// square as it is.
pub open spec fn feature_index(white_view: bool, piece: Piece, square: Square) -> int {
    let c = piece.color.index();
    let p = piece.role.spec_code() as int - 1;
    if white_view {
        c * 384 + p * 64 + square.spec_flip_vertical().spec_index()
    } else {
        (1 - c) * 384 + p * 64 + square.spec_index()
    }
}

/// Within one perspective every piece on every square has an input of its
/// own, and that input is one of the network's.
pub proof fn feature_index_is_its_own(
    white_view: bool,
    piece: Piece,
    square: Square,
    other_piece: Piece,
    other_square: Square,
)
    requires
        square.wf(),
        other_square.wf(),
        feature_index(white_view, piece, square) == feature_index(
            white_view,
            other_piece,
            other_square,
        ),
    ensures
        piece == other_piece,
        square == other_square,
        0 <= feature_index(white_view, piece, square) < FEATURES,
{
    let a = square.0 as int;
    let b = other_square.0 as int;
    assert(square.spec_flip_vertical().spec_index() == a % 8 + 8 * (7 - a / 8));
    assert(other_square.spec_flip_vertical().spec_index() == b % 8 + 8 * (7 - b / 8));
}

/// The numbers of the inputs that a piece on a square switches on: first in
/// the accumulator of White, then in that of Black.
pub fn nnue_index(piece: Piece, square: Square) -> (r: (usize, usize))
    requires
        square.wf(),
    ensures
        r.0 == feature_index(true, piece, square),
        r.1 == feature_index(false, piece, square),
        r.0 < FEATURES,
        r.1 < FEATURES,
{
    let p: usize = (piece.role.code() - 1) as usize;
    let c: usize = if piece.color.is_white() { 1 } else { 0 };
    let white_idx = c * 384 + p * 64 + square.flip_vertical().index();
    let black_idx = (1 - c) * 384 + p * 64 + square.index();
    (white_idx, black_idx)
}

/// The quantised weights of a network.
pub struct Network {
    /// The number of hidden units of one perspective.
    pub hidden: usize,
    /// The activation that the weights were trained with.
    pub activation: Activation,
    /// For each input the column of its weights, one for each hidden unit.
    pub feature_weights: Vec<Vec<i16>>,
    /// The bias of each hidden unit.
    pub feature_bias: Vec<i16>,
    /// The output weights: those of the side to move, then those of the
    /// other side.
    pub output_weights: Vec<i16>,
    /// The bias of the output.
    pub output_bias: i16,
}

impl Network {
    /// The weights have the shape of a network with `hidden` hidden units.
    pub open spec fn wf(&self) -> bool {
        &&& 1 <= self.hidden <= MAX_HIDDEN
        &&& self.feature_weights.len() == FEATURES
        &&& forall|f: int|
            0 <= f < FEATURES ==> (#[trigger] self.feature_weights[f]).len() == self.hidden
        &&& self.feature_bias.len() == self.hidden
        &&& self.output_weights.len() == 2 * self.hidden
    }

    /// The weight from an input to a hidden unit.
    pub open spec fn weight(&self, feature: int, h: int) -> i16 {
        self.feature_weights[feature][h]
    }

    /// The output before scaling: the bias and the weighted sums of both
    /// accumulators.
    pub open spec fn raw_output(&self, us: Seq<i16>, them: Seq<i16>) -> int {
        self.output_bias as int + dot(
            self.activation,
            us,
            self.output_weights@,
            0,
            self.hidden as int,
        ) + dot(self.activation, them, self.output_weights@, self.hidden as int, self.hidden as int)
    }

    /// The evaluation of a pair of accumulators, in centipawns.
    pub open spec fn spec_evaluate(&self, us: Seq<i16>, them: Seq<i16>) -> int {
        let raw = self.raw_output(us, them);
        match self.activation {
            Activation::CReLU => quot(raw * SCALE, QA as int * QB as int),
            Activation::SCReLU => quot(
                (quot(raw, QA as int) + self.output_bias as int) * SCALE,
                QAB as int,
            ),
        }
    }

    /// The weights are those that a byte string holds: the columns of the
    /// inputs one after another, the bias, the output weights and the output
    /// bias, each value in two bytes with the low byte first.
    pub open spec fn read_from(&self, bytes: Seq<u8>) -> bool {
        let hidden = self.hidden as int;
        &&& self.wf()
        &&& forall|f: int, h: int|
            0 <= f < FEATURES && 0 <= h < hidden ==> #[trigger] self.feature_weights[f][h]
                == le16_at(bytes, f * hidden + h)
        &&& forall|h: int|
            0 <= h < hidden ==> #[trigger] self.feature_bias[h] == le16_at(
                bytes,
                768 * hidden + h,
            )
        &&& forall|i: int|
            0 <= i < 2 * hidden ==> #[trigger] self.output_weights[i] == le16_at(
                bytes,
                769 * hidden + i,
            )
        &&& self.output_bias == le16_at(bytes, 771 * hidden)
    }

    /// Whether the weights have the shape of a network.
    pub fn is_valid(&self) -> (r: bool)
        ensures
            r == self.wf(),
    {
        if self.hidden < 1 || self.hidden > MAX_HIDDEN {
            return false;
        }
        if self.feature_weights.len() != FEATURES || self.feature_bias.len() != self.hidden
            || self.output_weights.len() != 2 * self.hidden {
            return false;
        }
        let mut f: usize = 0;
        while f < FEATURES
            invariant
                f <= FEATURES,
                self.feature_weights.len() == FEATURES,
                forall|g: int| 0 <= g < f ==> (#[trigger] self.feature_weights[g]).len()
                    == self.hidden,
            decreases FEATURES - f,
        {
            if self.feature_weights[f].len() != self.hidden {
                return false;
            }
            f += 1;
        }
        true
    }

    /// Reads the weights of a network with `hidden` hidden units from a byte
    /// string. The string may be longer than the weights; what follows them
    /// is not read. There is no network where `hidden` is 0 or above
    /// `MAX_HIDDEN`, or where the string is too short.
    pub fn from_bytes(bytes: &Vec<u8>, hidden: usize, activation: Activation) -> (r: Option<
        Network,
    >)
        ensures
            r is Some <==> 1 <= hidden <= MAX_HIDDEN && bytes.len() >= blob_len(hidden as int),
            r matches Some(net) ==> net.hidden == hidden && net.activation == activation
                && net.read_from(bytes@),
    {
        if hidden < 1 || hidden > MAX_HIDDEN {
            return None;
        }
        let needed: usize = 2 * (771 * hidden + 1);
        if bytes.len() < needed {
            return None;
        }
        let mut k: usize = 0;
        let mut feature_weights: Vec<Vec<i16>> = Vec::new();
        let mut f: usize = 0;
        while f < FEATURES
            invariant
                f <= FEATURES,
                1 <= hidden <= MAX_HIDDEN,
                bytes.len() >= 2 * (771 * hidden + 1),
                k == f * hidden,
                feature_weights.len() == f,
                forall|g: int| 0 <= g < f ==> (#[trigger] feature_weights[g]).len() == hidden,
                forall|g: int, h: int|
                    0 <= g < f && 0 <= h < hidden ==> #[trigger] feature_weights[g][h] == le16_at(
                        bytes@,
                        g * hidden + h,
                    ),
            decreases FEATURES - f,
        {
            assert(f * hidden + hidden == (f + 1) * hidden) by (nonlinear_arith);
            assert((f + 1) * hidden <= 768 * hidden) by (nonlinear_arith)
                requires
                    f + 1 <= 768,
                    hidden >= 0,
            ;
            let column = read_lanes(bytes, k, hidden);
            feature_weights.push(column);
            k += hidden;
            f += 1;
        }
        assert(k == 768 * hidden) by (nonlinear_arith)
            requires
                k == f * hidden,
                f == 768,
        ;
        let feature_bias = read_lanes(bytes, k, hidden);
        k += hidden;
        let output_weights = read_lanes(bytes, k, 2 * hidden);
        k += 2 * hidden;
        let output_bias = read_lane(bytes, k);
        let net = Network {
            hidden,
            activation,
            feature_weights,
            feature_bias,
            output_weights,
            output_bias,
        };
        Some(net)
    }

    /// Calculates the output of the network from the accumulator of the side
    /// to move and that of the other side.
    pub fn evaluate(&self, us: &Accumulator, them: &Accumulator) -> (r: i32)
        requires
            self.wf(),
            us.wf(self),
            them.wf(self),
        ensures
            r == self.spec_evaluate(us@, them@),
            -EVAL_LIMIT <= r <= EVAL_LIMIT,
    {
        let own = self.weighted_sum(us, 0);
        let other = self.weighted_sum(them, self.hidden);
        let raw: i64 = self.output_bias as i64 + own + other;
        let scaled: i64 = match self.activation {
            Activation::CReLU => divide(raw * (SCALE as i64), (QA as i64) * (QB as i64)),
            Activation::SCReLU => {
                let unquantised = divide(raw, QA as i64);
                divide((unquantised + self.output_bias as i64) * (SCALE as i64), QAB as i64)
            },
        };
        scaled as i32
    }

    /// The weighted sum of an accumulator's activated values, with the
    /// output weights from `offset` on.
    fn weighted_sum(&self, acc: &Accumulator, offset: usize) -> (r: i64)
        requires
            self.wf(),
            acc.wf(self),
            offset == 0 || offset == self.hidden,
        ensures
            r == dot(
                self.activation,
                acc@,
                self.output_weights@,
                offset as int,
                self.hidden as int,
            ),
            -(term_limit(self.activation) * 1024) <= r <= term_limit(self.activation) * 1024,
    {
        let ghost limit = term_limit(self.activation);
        let mut sum: i64 = 0;
        let mut h: usize = 0;
        while h < self.hidden
            invariant
                self.wf(),
                acc.wf(self),
                offset == 0 || offset == self.hidden,
                h <= self.hidden,
                limit == term_limit(self.activation),
                sum == dot(self.activation, acc@, self.output_weights@, offset as int, h as int),
                -(limit * h) <= sum <= limit * h,
            decreases self.hidden - h,
        {
            let x = acc.vals[h];
            let w: i64 = self.output_weights[offset + h] as i64;
            let a: i64 = match self.activation {
                Activation::CReLU => {
                    let a = crelu(x) as i64;
                    assert(-8_355_840 <= a * w <= 8_355_840) by (nonlinear_arith)
                        requires
                            0 <= a <= 255,
                            -32768 <= w <= 32767,
                    ;
                    a
                },
                Activation::SCReLU => {
                    let a = screlu(x) as i64;
                    assert(-2_130_739_200 <= a * w <= 2_130_739_200) by (nonlinear_arith)
                        requires
                            0 <= a <= 65025,
                            -32768 <= w <= 32767,
                    ;
                    a
                },
            };
            proof {
                assert(limit * h <= limit * 1024 && limit * (h + 1) == limit * h + limit)
                    by (nonlinear_arith)
                    requires
                        0 <= h <= 1024,
                        limit >= 0,
                ;
            }
            sum = sum + a * w;
            h += 1;
        }
        proof {
            assert(limit * h <= limit * 1024) by (nonlinear_arith)
                requires
                    0 <= h <= 1024,
                    limit >= 0,
            ;
        }
        sum
    }
}

/// No product of an activated value and an output weight is larger in size
/// than this.
pub open spec fn term_limit(activation: Activation) -> int {
    match activation {
        Activation::CReLU => 8_355_840,
        Activation::SCReLU => 2_130_739_200,
    }
}

/// The quotient of `a` by a positive `b`, rounded toward zero.
fn divide(a: i64, b: i64) -> (r: i64)
    requires
        b > 0,
        a > i64::MIN,
    ensures
        r == quot(a as int, b as int),
        a >= 0 ==> 0 <= r <= a,
        a < 0 ==> a <= r <= 0,
{
    if a >= 0 {
        let q = a / b;
        assert(0 <= a as int / b as int <= a) by (nonlinear_arith)
            requires
                a >= 0,
                b > 0,
        ;
        q
    } else {
        let n = -a;
        let q = n / b;
        assert(0 <= n as int / b as int <= n) by (nonlinear_arith)
            requires
                n >= 0,
                b > 0,
        ;
        -q
    }
}

/// Reads the 16-bit value number `k` of a byte string.
fn read_lane(bytes: &Vec<u8>, k: usize) -> (r: i16)
    requires
        2 * k + 1 < bytes.len(),
    ensures
        r == le16_at(bytes@, k as int),
{
    let low = bytes[2 * k];
    let high = bytes[2 * k + 1];
    let u: u16 = low as u16 + 256 * (high as u16);
    if u < 32768 {
        u as i16
    } else {
        (u as i32 - 65536) as i16
    }
}

/// Reads `n` 16-bit values of a byte string, from number `start` on.
fn read_lanes(bytes: &Vec<u8>, start: usize, n: usize) -> (r: Vec<i16>)
    requires
        2 * (start + n) <= bytes.len(),
        bytes.len() <= usize::MAX,
    ensures
        r.len() == n,
        forall|i: int| 0 <= i < n ==> #[trigger] r[i] == le16_at(bytes@, start + i),
{
    let mut out: Vec<i16> = Vec::new();
    let mut i: usize = 0;
    while i < n
        invariant
            i <= n,
            2 * (start + n) <= bytes.len(),
            out.len() == i,
            forall|j: int| 0 <= j < i ==> #[trigger] out[j] == le16_at(bytes@, start + j),
        decreases n - i,
    {
        out.push(read_lane(bytes, start + i));
        i += 1;
    }
    out
}

/// A copy of a vector of 16-bit values.
fn copy_lanes(lanes: &Vec<i16>) -> (r: Vec<i16>)
    ensures
        r@ == lanes@,
{
    let mut out: Vec<i16> = Vec::new();
    let mut i: usize = 0;
    while i < lanes.len()
        invariant
            i <= lanes.len(),
            out@ == lanes@.take(i as int),
        decreases lanes.len() - i,
    {
        out.push(lanes[i]);
        proof {
            assert(lanes@.take(i as int).push(lanes@[i as int]) == lanes@.take(i + 1));
        }
        i += 1;
    }
    proof {
        assert(lanes@.take(lanes.len() as int) == lanes@);
    }
    out
}

/// The hidden layer of one perspective before activation.
pub struct Accumulator {
    pub vals: Vec<i16>,
}

impl View for Accumulator {
    type V = Seq<i16>;

    open spec fn view(&self) -> Seq<i16> {
        self.vals@
    }
}

/// The values of an accumulator after an input is switched on: each grows by
/// the input's weight for its hidden unit, wrapping around in 16 bits.
pub open spec fn with_feature(net: &Network, acc: Seq<i16>, feature: int) -> Seq<i16> {
    Seq::new(acc.len(), |h: int| acc[h].wrapping_add(net.weight(feature, h)))
}

/// The values of an accumulator after an input is switched off: each shrinks
/// by the input's weight for its hidden unit, wrapping around in 16 bits.
pub open spec fn without_feature(net: &Network, acc: Seq<i16>, feature: int) -> Seq<i16> {
    Seq::new(acc.len(), |h: int| acc[h].wrapping_sub(net.weight(feature, h)))
}

impl Accumulator {
    /// The accumulator has one value for each hidden unit of the network.
    pub open spec fn wf(&self, net: &Network) -> bool {
        self.vals.len() == net.hidden
    }

    /// An accumulator with no input switched on: the bias of the network.
    pub fn new(net: &Network) -> (r: Accumulator)
        requires
            net.wf(),
        ensures
            r@ == net.feature_bias@,
            r.wf(net),
    {
        Accumulator { vals: copy_lanes(&net.feature_bias) }
    }

    /// A copy of the accumulator.
    pub fn copy(&self) -> (r: Accumulator)
        ensures
            r@ == self@,
    {
        Accumulator { vals: copy_lanes(&self.vals) }
    }

    /// Switches an input on: adds its weights to the accumulator.
    pub fn add_feature(&mut self, feature_idx: usize, net: &Network)
        requires
            net.wf(),
            old(self).wf(net),
            feature_idx < FEATURES,
        ensures
            final(self).wf(net),
            final(self)@ == with_feature(net, old(self)@, feature_idx as int),
    {
        let mut h: usize = 0;
        while h < net.hidden
            invariant
                net.wf(),
                feature_idx < FEATURES,
                h <= net.hidden,
                self.vals.len() == net.hidden,
                old(self).vals.len() == net.hidden,
                forall|j: int|
                    0 <= j < h ==> #[trigger] self.vals@[j] == old(self).vals@[j].wrapping_add(
                        net.weight(feature_idx as int, j),
                    ),
                forall|j: int|
                    h <= j < net.hidden ==> #[trigger] self.vals@[j] == old(self).vals@[j],
            decreases net.hidden - h,
        {
            let d = net.feature_weights[feature_idx][h];
            let v = self.vals[h];
            self.vals[h] = v.wrapping_add(d);
            h += 1;
        }
        assert(self@ =~= with_feature(net, old(self)@, feature_idx as int));
    }

    /// Switches an input off: takes its weights from the accumulator.
    pub fn remove_feature(&mut self, feature_idx: usize, net: &Network)
        requires
            net.wf(),
            old(self).wf(net),
            feature_idx < FEATURES,
        ensures
            final(self).wf(net),
            final(self)@ == without_feature(net, old(self)@, feature_idx as int),
    {
        let mut h: usize = 0;
        while h < net.hidden
            invariant
                net.wf(),
                feature_idx < FEATURES,
                h <= net.hidden,
                self.vals.len() == net.hidden,
                old(self).vals.len() == net.hidden,
                forall|j: int|
                    0 <= j < h ==> #[trigger] self.vals@[j] == old(self).vals@[j].wrapping_sub(
                        net.weight(feature_idx as int, j),
                    ),
                forall|j: int|
                    h <= j < net.hidden ==> #[trigger] self.vals@[j] == old(self).vals@[j],
            decreases net.hidden - h,
        {
            let d = net.feature_weights[feature_idx][h];
            let v = self.vals[h];
            self.vals[h] = v.wrapping_sub(d);
            h += 1;
        }
        assert(self@ =~= without_feature(net, old(self)@, feature_idx as int));
    }
}

/// What the occupant of a square adds to a hidden unit of one perspective.
pub open spec fn contribution(
    net: &Network,
    white_view: bool,
    occupant: Option<Piece>,
    square: int,
    h: int,
) -> int {
    match occupant {
        Some(piece) => net.weight(feature_index(white_view, piece, Square(square as u8)), h) as int,
        None => 0,
    }
}

/// What the occupants of the squares below `n` add to a hidden unit.
pub open spec fn lane_total(net: &Network, board: Board, white_view: bool, h: int, n: int) -> int
    decreases n,
{
    if n <= 0 {
        0
    } else {
        lane_total(net, board, white_view, h, n - 1) + contribution(
            net,
            white_view,
            board[n - 1],
            n - 1,
            h,
        )
    }
}

/// The values of one perspective's accumulator for the squares below `n` of
/// a board: for each hidden unit its bias and what every piece on those
/// squares adds, wrapped around in 16 bits.
pub open spec fn partial_values(net: &Network, board: Board, white_view: bool, n: int) -> Seq<
    i16,
> {
    Seq::new(
        net.hidden as nat,
        |h: int| wrap16(net.feature_bias[h] as int + lane_total(net, board, white_view, h, n)),
    )
}

/// The values of one perspective's accumulator for a board, rebuilt from
/// nothing.
pub open spec fn board_values(net: &Network, board: Board, white_view: bool) -> Seq<i16> {
    partial_values(net, board, white_view, 64)
}

/// Adding a 16-bit value to a wrapped sum gives the wrapped sum with the
/// value.
pub proof fn wrap_add(total: int, w: i16)
    ensures
        wrap16(total).wrapping_add(w) == wrap16(total + w),
{
}

/// Taking a 16-bit value from a wrapped sum gives the wrapped sum without
/// the value.
pub proof fn wrap_sub(total: int, w: i16)
    ensures
        wrap16(total).wrapping_sub(w) == wrap16(total - w),
{
}

/// A value that is in 16 bits already is its own wrapped value.
pub proof fn wrap_of_small(x: i16)
    ensures
        wrap16(x as int) == x,
{
}

/// Changing the occupant of one square changes the total of a hidden unit by
/// what the new occupant adds less what the old one added.
pub proof fn lane_total_update(
    net: &Network,
    board: Board,
    white_view: bool,
    h: int,
    n: int,
    square: int,
    occupant: Option<Piece>,
)
    requires
        0 <= n <= board.len(),
        0 <= square < board.len(),
    ensures
        lane_total(net, board.update(square, occupant), white_view, h, n) == lane_total(
            net,
            board,
            white_view,
            h,
            n,
        ) + if square < n {
            contribution(net, white_view, occupant, square, h) - contribution(
                net,
                white_view,
                board[square],
                square,
                h,
            )
        } else {
            0
        },
    decreases n,
{
    if n > 0 {
        lane_total_update(net, board, white_view, h, n - 1, square, occupant);
    }
}

/// Putting a piece on an empty square of the board and switching its input
/// on in the board's accumulator gives the accumulator of the new board.
pub proof fn place_piece(net: &Network, board: Board, white_view: bool, square: Square, piece: Piece)
    requires
        board.len() == 64,
        square.wf(),
        board[square.spec_index()] is None,
    ensures
        with_feature(
            net,
            board_values(net, board, white_view),
            feature_index(white_view, piece, square),
        ) == board_values(net, board.update(square.spec_index(), Some(piece)), white_view),
{
    let feature = feature_index(white_view, piece, square);
    let before = board_values(net, board, white_view);
    let after = board_values(net, board.update(square.spec_index(), Some(piece)), white_view);
    assert forall|h: int| 0 <= h < net.hidden implies #[trigger] with_feature(
        net,
        before,
        feature,
    )[h] == after[h] by {
        lane_total_update(net, board, white_view, h, 64, square.spec_index(), Some(piece));
        wrap_add(
            net.feature_bias[h] as int + lane_total(net, board, white_view, h, 64),
            net.weight(feature, h),
        );
    }
    assert(with_feature(net, before, feature) =~= after);
}

/// Taking a piece off its square of the board and switching its input off
/// in the board's accumulator gives the accumulator of the new board.
pub proof fn lift_piece(net: &Network, board: Board, white_view: bool, square: Square, piece: Piece)
    requires
        board.len() == 64,
        square.wf(),
        board[square.spec_index()] == Some(piece),
    ensures
        without_feature(
            net,
            board_values(net, board, white_view),
            feature_index(white_view, piece, square),
        ) == board_values(net, board.update(square.spec_index(), None), white_view),
{
    let feature = feature_index(white_view, piece, square);
    let before = board_values(net, board, white_view);
    let after = board_values(net, board.update(square.spec_index(), None), white_view);
    assert forall|h: int| 0 <= h < net.hidden implies #[trigger] without_feature(
        net,
        before,
        feature,
    )[h] == after[h] by {
        lane_total_update(net, board, white_view, h, 64, square.spec_index(), None);
        wrap_sub(
            net.feature_bias[h] as int + lane_total(net, board, white_view, h, 64),
            net.weight(feature, h),
        );
    }
    assert(without_feature(net, before, feature) =~= after);
}

/// Switching an input on and off again leaves an accumulator as it was.
pub proof fn feature_on_off(net: &Network, acc: Seq<i16>, feature: int)
    ensures
        without_feature(net, with_feature(net, acc, feature), feature) == acc,
        with_feature(net, without_feature(net, acc, feature), feature) == acc,
{
    assert(without_feature(net, with_feature(net, acc, feature), feature) =~= acc);
    assert(with_feature(net, without_feature(net, acc, feature), feature) =~= acc);
}

/// The accumulators of both perspectives for one board.
pub struct AccumulatorCouple {
    pub white: Accumulator,
    pub black: Accumulator,
}

impl AccumulatorCouple {
    pub open spec fn wf(&self, net: &Network) -> bool {
        self.white.wf(net) && self.black.wf(net)
    }

    /// Both accumulators hold the values that the board gives them.
    pub open spec fn reflects(&self, net: &Network, board: Board) -> bool {
        self.white@ == board_values(net, board, true) && self.black@ == board_values(
            net,
            board,
            false,
        )
    }

    /// Both accumulators with no input switched on.
    pub fn new(net: &Network) -> (r: AccumulatorCouple)
        requires
            net.wf(),
        ensures
            r.white@ == net.feature_bias@,
            r.black@ == net.feature_bias@,
            r.wf(net),
    {
        AccumulatorCouple { white: Accumulator::new(net), black: Accumulator::new(net) }
    }

    /// A copy of both accumulators.
    pub fn copy(&self) -> (r: AccumulatorCouple)
        ensures
            r.white@ == self.white@,
            r.black@ == self.black@,
    {
        AccumulatorCouple { white: self.white.copy(), black: self.black.copy() }
    }
}

/// The pair of accumulators under its other name.
pub type Accumulators = AccumulatorCouple;

impl AccumulatorCouple {
    /// Switches an input on or off in both accumulators: `idx` holds its
    /// number in the accumulator of White and that in the accumulator of
    /// Black.
    pub fn update_weights(&mut self, on: bool, idx: (usize, usize), net: &Network)
        requires
            net.wf(),
            old(self).wf(net),
            idx.0 < FEATURES,
            idx.1 < FEATURES,
        ensures
            final(self).wf(net),
            final(self).white@ == (if on {
                with_feature(net, old(self).white@, idx.0 as int)
            } else {
                without_feature(net, old(self).white@, idx.0 as int)
            }),
            final(self).black@ == (if on {
                with_feature(net, old(self).black@, idx.1 as int)
            } else {
                without_feature(net, old(self).black@, idx.1 as int)
            }),
    {
        if on {
            self.white.add_feature(idx.0, net);
            self.black.add_feature(idx.1, net);
        } else {
            self.white.remove_feature(idx.0, net);
            self.black.remove_feature(idx.1, net);
        }
    }

    /// Switches one input off and another on in both accumulators.
    pub fn add_sub_weights(&mut self, from: (usize, usize), to: (usize, usize), net: &Network)
        requires
            net.wf(),
            old(self).wf(net),
            from.0 < FEATURES,
            from.1 < FEATURES,
            to.0 < FEATURES,
            to.1 < FEATURES,
        ensures
            final(self).wf(net),
            final(self).white@ == with_feature(
                net,
                without_feature(net, old(self).white@, from.0 as int),
                to.0 as int,
            ),
            final(self).black@ == with_feature(
                net,
                without_feature(net, old(self).black@, from.1 as int),
                to.1 as int,
            ),
    {
        self.update_weights(false, from, net);
        self.update_weights(true, to, net);
    }
}

/// The stack of accumulator pairs, one for each ply of the search. The pair
/// at `current` belongs to the position that the search is at; the pairs
/// below it belong to the positions that led there.
pub struct NNUEState {
    pub stack: Vec<AccumulatorCouple>,
    pub current: usize,
}

impl NNUEState {
    /// The stack has its full size, `current` is in it, and every pair fits
    /// the network.
    pub open spec fn wf(&self, net: &Network) -> bool {
        &&& self.stack.len() == STACK_SIZE
        &&& self.current < STACK_SIZE
        &&& forall|i: int| 0 <= i < STACK_SIZE ==> (#[trigger] self.stack[i]).wf(net)
    }

    /// The pair at `current`.
    pub open spec fn top(&self) -> AccumulatorCouple {
        self.stack[self.current as int]
    }

    /// The pair at `current` holds the values that the board gives it.
    pub open spec fn reflects(&self, net: &Network, board: Board) -> bool {
        self.wf(net) && self.top().reflects(net, board)
    }

    /// The stack differs from `other` in the pair at `current` at most.
    pub open spec fn same_but_top(&self, other: &NNUEState) -> bool {
        &&& self.current == other.current
        &&& self.stack.len() == other.stack.len()
        &&& forall|i: int|
            0 <= i < self.stack.len() && i != self.current ==> #[trigger] self.stack[i]
                == other.stack[i]
    }

    /// A stack for a board with no piece on it.
    pub fn new(net: &Network) -> (r: NNUEState)
        requires
            net.wf(),
        ensures
            r.wf(net),
            r.current == 0,
            forall|i: int|
                0 <= i < STACK_SIZE ==> (#[trigger] r.stack[i]).white@ == net.feature_bias@
                    && r.stack[i].black@ == net.feature_bias@,
    {
        let mut stack: Vec<AccumulatorCouple> = Vec::new();
        let mut i: usize = 0;
        while i < STACK_SIZE
            invariant
                net.wf(),
                i <= STACK_SIZE,
                stack.len() == i,
                forall|j: int|
                    0 <= j < i ==> (#[trigger] stack[j]).white@ == net.feature_bias@
                        && stack[j].black@ == net.feature_bias@ && stack[j].wf(net),
            decreases STACK_SIZE - i,
        {
            stack.push(AccumulatorCouple::new(net));
            i += 1;
        }
        NNUEState { stack, current: 0 }
    }

    /// A stack whose first pair holds the values of the position's board.
    pub fn from_board(net: &Network, pos: &Position) -> (r: NNUEState)
        requires
            net.wf(),
        ensures
            r.reflects(net, pos.board()),
            r.current == 0,
    {
        let mut state = NNUEState::new(net);
        state.rebuild(net, pos);
        state
    }

    /// Goes back to the first pair and makes it hold the values of the
    /// position's board.
    pub fn refresh(&mut self, net: &Network, pos: &Position)
        requires
            net.wf(),
            old(self).wf(net),
        ensures
            final(self).reflects(net, pos.board()),
            final(self).current == 0,
    {
        self.current = 0;
        self.rebuild(net, pos);
    }

    /// Makes the pair at `current` hold the values of the position's board:
    /// starts from the bias and switches on the input of every piece.
    pub fn rebuild(&mut self, net: &Network, pos: &Position)
        requires
            net.wf(),
            old(self).wf(net),
        ensures
            final(self).reflects(net, pos.board()),
            final(self).same_but_top(old(self)),
    {
        let ghost board = pos.board();
        self.stack[self.current] = AccumulatorCouple::new(net);
        proof {
            assert forall|h: int| 0 <= h < net.hidden implies net.feature_bias@[h]
                == #[trigger] partial_values(net, board, true, 0)[h] && net.feature_bias@[h]
                == partial_values(net, board, false, 0)[h] by {
                wrap_of_small(net.feature_bias@[h]);
            }
            assert(self.top().white@ =~= partial_values(net, board, true, 0));
            assert(self.top().black@ =~= partial_values(net, board, false, 0));
        }
        let mut sq: u8 = 0;
        while sq < 64
            invariant
                net.wf(),
                self.wf(net),
                self.same_but_top(old(self)),
                sq <= 64,
                board == pos.board(),
                self.top().white@ == partial_values(net, board, true, sq as int),
                self.top().black@ == partial_values(net, board, false, sq as int),
            decreases 64 - sq,
        {
            let square = Square(sq);
            let occupant = pos.piece_at(square);
            let ghost white_before = self.top().white@;
            let ghost black_before = self.top().black@;
            match occupant {
                Some(piece) => {
                    self.manual_update(true, piece, square, net);
                },
                None => {},
            }
            proof {
                assert forall|h: int| 0 <= h < net.hidden implies #[trigger] self.top().white@[h]
                    == partial_values(net, board, true, sq + 1)[h] by {
                    if let Some(piece) = occupant {
                        wrap_add(
                            net.feature_bias[h] as int + lane_total(net, board, true, h, sq as int),
                            net.weight(feature_index(true, piece, square), h),
                        );
                    }
                }
                assert forall|h: int| 0 <= h < net.hidden implies #[trigger] self.top().black@[h]
                    == partial_values(net, board, false, sq + 1)[h] by {
                    if let Some(piece) = occupant {
                        wrap_add(
                            net.feature_bias[h] as int + lane_total(
                                net,
                                board,
                                false,
                                h,
                                sq as int,
                            ),
                            net.weight(feature_index(false, piece, square), h),
                        );
                    }
                }
                assert(self.top().white@ =~= partial_values(net, board, true, sq + 1));
                assert(self.top().black@ =~= partial_values(net, board, false, sq + 1));
            }
            sq += 1;
        }
    }

    /// Copies the pair at `current` to the next slot and moves on to it.
    pub fn push(&mut self)
        requires
            old(self).stack.len() == STACK_SIZE,
            old(self).current + 1 < STACK_SIZE,
        ensures
            final(self).current == old(self).current + 1,
            final(self).stack.len() == STACK_SIZE,
            final(self).top().white@ == old(self).top().white@,
            final(self).top().black@ == old(self).top().black@,
            forall|i: int|
                0 <= i < STACK_SIZE && i != old(self).current + 1 ==>
                    #[trigger] final(self).stack[i] == old(self).stack[i],
    {
        let copy = self.stack[self.current].copy();
        self.stack[self.current + 1] = copy;
        self.current += 1;
    }

    /// Goes back to the pair below.
    pub fn pop(&mut self)
        requires
            old(self).current > 0,
        ensures
            final(self).current == old(self).current - 1,
            final(self).stack == old(self).stack,
    {
        self.current -= 1;
    }

    /// Switches the input of a piece on a square on or off in both
    /// accumulators of the pair at `current`.
    pub fn manual_update(&mut self, on: bool, piece: Piece, square: Square, net: &Network)
        requires
            net.wf(),
            old(self).wf(net),
            square.wf(),
        ensures
            final(self).wf(net),
            final(self).same_but_top(old(self)),
            final(self).top().white@ == (if on {
                with_feature(net, old(self).top().white@, feature_index(true, piece, square))
            } else {
                without_feature(net, old(self).top().white@, feature_index(true, piece, square))
            }),
            final(self).top().black@ == (if on {
                with_feature(net, old(self).top().black@, feature_index(false, piece, square))
            } else {
                without_feature(net, old(self).top().black@, feature_index(false, piece, square))
            }),
    {
        let (white_idx, black_idx) = nnue_index(piece, square);
        if on {
            self.stack[self.current].white.add_feature(white_idx, net);
            self.stack[self.current].black.add_feature(black_idx, net);
        } else {
            self.stack[self.current].white.remove_feature(white_idx, net);
            self.stack[self.current].black.remove_feature(black_idx, net);
        }
    }

    /// Moves the input of a piece from one square to another in both
    /// accumulators of the pair at `current`.
    pub fn move_update(&mut self, piece: Piece, from: Square, to: Square, net: &Network)
        requires
            net.wf(),
            old(self).wf(net),
            from.wf(),
            to.wf(),
        ensures
            final(self).wf(net),
            final(self).same_but_top(old(self)),
            final(self).top().white@ == with_feature(
                net,
                without_feature(net, old(self).top().white@, feature_index(true, piece, from)),
                feature_index(true, piece, to),
            ),
            final(self).top().black@ == with_feature(
                net,
                without_feature(net, old(self).top().black@, feature_index(false, piece, from)),
                feature_index(false, piece, to),
            ),
    {
        self.manual_update(false, piece, from, net);
        self.manual_update(true, piece, to, net);
    }
}

} // verus!
