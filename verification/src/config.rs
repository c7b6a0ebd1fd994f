//! The tuning constants of the search, each an option that the protocol can
//! show and set.

use crate::text::{
    decimal, parse_signed_in, parse_unsigned_in, signed_in, signed_text, unsigned_in, views,
};
use vstd::prelude::*;
use vstd::string::{StrSliceExecFns, StringExecFns};

verus! {

/// The kind of an option, as the protocol names it.
#[derive(Clone, Copy, Debug, PartialEq, Eq, Structural)]
pub enum OptionKind {
    Spin,
    String,
}

impl OptionKind {
    /// The protocol's word for the kind.
    pub open spec fn word(self) -> Seq<char> {
        match self {
            OptionKind::Spin => "spin"@,
            OptionKind::String => "string"@,
        }
    }

    /// The protocol's word for the kind.
    pub fn as_str(&self) -> (r: &'static str)
        ensures
            r@ == self.word(),
    {
        match self {
            OptionKind::Spin => "spin",
            OptionKind::String => "string",
        }
    }
}

/// An option: its name, its kind, its value and the range that is offered
/// for it.
pub struct OptionDescriptor<T> {
    pub name: &'static str,
    pub kind: OptionKind,
    pub value: T,
    pub min: T,
    pub max: T,
}

/// The line that offers an option to a tuner: the name, the kind of number,
/// the value, the least and the greatest value, and the step and the
/// learning rate, which are the same for every option.
pub open spec fn spsa_text(
    name: Seq<char>,
    number: Seq<char>,
    value: Seq<char>,
    min: Seq<char>,
    max: Seq<char>,
) -> Seq<char> {
    name + ", "@ + number + ", "@ + value + ", "@ + min + ", "@ + max + ", 2.25, 0.002"@
}

/// The line that offers an option to a user of the protocol.
pub open spec fn option_text(
    name: Seq<char>,
    kind: Seq<char>,
    value: Seq<char>,
    min: Seq<char>,
    max: Seq<char>,
) -> Seq<char> {
    "option name "@ + name + " type "@ + kind + " default "@ + value + " min "@ + min + " max "@
        + max
}

fn spsa_line(name: &str, number: &str, value: &str, min: &str, max: &str) -> (r: String)
    ensures
        r@ == spsa_text(name@, number@, value@, min@, max@),
{
    let mut line = String::from_str(name);
    line.append(", ");
    line.append(number);
    line.append(", ");
    line.append(value);
    line.append(", ");
    line.append(min);
    line.append(", ");
    line.append(max);
    line.append(", 2.25, 0.002");
    line
}

fn option_line(name: &str, kind: &str, value: &str, min: &str, max: &str) -> (r: String)
    ensures
        r@ == option_text(name@, kind@, value@, min@, max@),
{
    let mut line = String::from_str("option name ");
    line.append(name);
    line.append(" type ");
    line.append(kind);
    line.append(" default ");
    line.append(value);
    line.append(" min ");
    line.append(min);
    line.append(" max ");
    line.append(max);
    line
}

/// Whether two texts are the same.
pub fn same_text(a: &str, b: &str) -> (r: bool)
    ensures
        r == (a@ == b@),
{
    let len = a.unicode_len();
    if len != b.unicode_len() {
        return false;
    }
    let mut i: usize = 0;
    while i < len
        invariant
            len == a@.len(),
            len == b@.len(),
            i <= len,
            forall|j: int| 0 <= j < i ==> a@[j] == b@[j],
        decreases len - i,
    {
        if a.get_char(i) != b.get_char(i) {
            return false;
        }
        i += 1;
    }
    proof {
        assert(a@ =~= b@);
    }
    true
}

impl OptionDescriptor<i32> {
    /// The value is in the range that is offered.
    pub open spec fn in_range(&self) -> bool {
        self.min <= self.value <= self.max
    }

    /// The line that offers the option to a tuner.
    pub fn fmt_spsa(&self) -> (r: String)
        ensures
            r@ == spsa_text(
                self.name@,
                "int"@,
                decimal(self.value as int),
                decimal(self.min as int),
                decimal(self.max as int),
            ),
    {
        let value = signed_text(self.value as i128);
        let min = signed_text(self.min as i128);
        let max = signed_text(self.max as i128);
        spsa_line(self.name, "int", value.as_str(), min.as_str(), max.as_str())
    }

    /// The line that offers the option to a user of the protocol.
    pub fn describe(&self) -> (r: String)
        ensures
            r@ == option_text(
                self.name@,
                self.kind.word(),
                decimal(self.value as int),
                decimal(self.min as int),
                decimal(self.max as int),
            ),
    {
        let value = signed_text(self.value as i128);
        let min = signed_text(self.min as i128);
        let max = signed_text(self.max as i128);
        option_line(self.name, self.kind.as_str(), value.as_str(), min.as_str(), max.as_str())
    }
}

impl OptionDescriptor<u8> {
    /// The value is in the range that is offered.
    pub open spec fn in_range(&self) -> bool {
        self.min <= self.value <= self.max
    }

    /// The line that offers the option to a tuner.
    pub fn fmt_spsa(&self) -> (r: String)
        ensures
            r@ == spsa_text(
                self.name@,
                "int"@,
                decimal(self.value as int),
                decimal(self.min as int),
                decimal(self.max as int),
            ),
    {
        let value = signed_text(self.value as i128);
        let min = signed_text(self.min as i128);
        let max = signed_text(self.max as i128);
        spsa_line(self.name, "int", value.as_str(), min.as_str(), max.as_str())
    }

    /// The line that offers the option to a user of the protocol.
    pub fn describe(&self) -> (r: String)
        ensures
            r@ == option_text(
                self.name@,
                self.kind.word(),
                decimal(self.value as int),
                decimal(self.min as int),
                decimal(self.max as int),
            ),
    {
        let value = signed_text(self.value as i128);
        let min = signed_text(self.min as i128);
        let max = signed_text(self.max as i128);
        option_line(self.name, self.kind.as_str(), value.as_str(), min.as_str(), max.as_str())
    }
}

impl OptionDescriptor<usize> {
    /// The value is in the range that is offered.
    pub open spec fn in_range(&self) -> bool {
        self.min <= self.value <= self.max
    }

    /// The line that offers the option to a tuner.
    pub fn fmt_spsa(&self) -> (r: String)
        ensures
            r@ == spsa_text(
                self.name@,
                "int"@,
                decimal(self.value as int),
                decimal(self.min as int),
                decimal(self.max as int),
            ),
    {
        let value = signed_text(self.value as i128);
        let min = signed_text(self.min as i128);
        let max = signed_text(self.max as i128);
        spsa_line(self.name, "int", value.as_str(), min.as_str(), max.as_str())
    }

    /// The line that offers the option to a user of the protocol.
    pub fn describe(&self) -> (r: String)
        ensures
            r@ == option_text(
                self.name@,
                self.kind.word(),
                decimal(self.value as int),
                decimal(self.min as int),
                decimal(self.max as int),
            ),
    {
        let value = signed_text(self.value as i128);
        let min = signed_text(self.min as i128);
        let max = signed_text(self.max as i128);
        option_line(self.name, self.kind.as_str(), value.as_str(), min.as_str(), max.as_str())
    }
}

impl OptionDescriptor<i64> {
    /// The value is in the range that is offered.
    pub open spec fn in_range(&self) -> bool {
        self.min <= self.value <= self.max
    }

    /// The line that offers the option to a tuner.
    pub fn fmt_spsa(&self) -> (r: String)
        ensures
            r@ == spsa_text(
                self.name@,
                "int"@,
                decimal(self.value as int),
                decimal(self.min as int),
                decimal(self.max as int),
            ),
    {
        let value = signed_text(self.value as i128);
        let min = signed_text(self.min as i128);
        let max = signed_text(self.max as i128);
        spsa_line(self.name, "int", value.as_str(), min.as_str(), max.as_str())
    }

    /// The line that offers the option to a user of the protocol.
    pub fn describe(&self) -> (r: String)
        ensures
            r@ == option_text(
                self.name@,
                self.kind.word(),
                decimal(self.value as int),
                decimal(self.min as int),
                decimal(self.max as int),
            ),
    {
        let value = signed_text(self.value as i128);
        let min = signed_text(self.min as i128);
        let max = signed_text(self.max as i128);
        option_line(self.name, self.kind.as_str(), value.as_str(), min.as_str(), max.as_str())
    }
}

impl OptionDescriptor<u64> {
    /// The value is in the range that is offered.
    pub open spec fn in_range(&self) -> bool {
        self.min <= self.value <= self.max
    }

    /// The line that offers the option to a tuner.
    pub fn fmt_spsa(&self) -> (r: String)
        ensures
            r@ == spsa_text(
                self.name@,
                "int"@,
                decimal(self.value as int),
                decimal(self.min as int),
                decimal(self.max as int),
            ),
    {
        let value = signed_text(self.value as i128);
        let min = signed_text(self.min as i128);
        let max = signed_text(self.max as i128);
        spsa_line(self.name, "int", value.as_str(), min.as_str(), max.as_str())
    }

    /// The line that offers the option to a user of the protocol.
    pub fn describe(&self) -> (r: String)
        ensures
            r@ == option_text(
                self.name@,
                self.kind.word(),
                decimal(self.value as int),
                decimal(self.min as int),
                decimal(self.max as int),
            ),
    {
        let value = signed_text(self.value as i128);
        let min = signed_text(self.min as i128);
        let max = signed_text(self.max as i128);
        option_line(self.name, self.kind.as_str(), value.as_str(), min.as_str(), max.as_str())
    }
}

impl OptionDescriptor<String> {
    /// The line that offers the option to a tuner. The value and the range
    /// are decimal texts and stand in the line as they are.
    pub fn fmt_spsa(&self) -> (r: String)
        ensures
            r@ == spsa_text(self.name@, "float"@, self.value@, self.min@, self.max@),
    {
        spsa_line(self.name, "float", self.value.as_str(), self.min.as_str(), self.max.as_str())
    }

    /// The line that offers the option to a user of the protocol.
    pub fn describe(&self) -> (r: String)
        ensures
            r@ == option_text(self.name@, self.kind.word(), self.value@, self.min@, self.max@),
    {
        option_line(
            self.name,
            self.kind.as_str(),
            self.value.as_str(),
            self.min.as_str(),
            self.max.as_str(),
        )
    }
}

/// The number of options.
pub const OPTION_COUNT: usize = 27;

/// What came of setting an option.
#[derive(Clone, Copy, Debug, PartialEq, Eq, Structural)]
pub enum SetOption {
    /// The option has the new value.
    Applied,
    /// The size of the transposition table has the new value; the table is
    /// still to be made anew.
    Resized,
    /// The option holds the new decimal text; the reductions that follow
    /// from it are still to be worked out.
    Retuned,
    /// The option is offered, but setting it is not supported.
    Unsupported,
    /// The value is no number, or not in the range that is offered.
    Refused,
    /// There is no option of that name.
    Unknown,
}

/// The tuning constants.
pub struct Config {
    /// The time set aside for sending a move, in milliseconds.
    pub move_overhead: OptionDescriptor<usize>,
    /// The number of search threads; there is one.
    pub threads: OptionDescriptor<u8>,
    /// The size of the transposition table, in mebibytes.
    pub hash: OptionDescriptor<usize>,
    /// How many plies a quiescence search may go down.
    pub qsearch_depth: OptionDescriptor<u8>,
    /// The depth up to which reverse futility pruning is tried.
    pub rfp_depth: OptionDescriptor<u8>,
    /// The margin of reverse futility pruning for each ply of depth.
    pub rfp_base_margin: OptionDescriptor<i32>,
    /// What an improving side takes off that margin.
    pub rfp_reduction_improving: OptionDescriptor<i32>,
    /// The reduced depth up to which futility pruning is tried.
    pub fp_depth_margin: OptionDescriptor<u8>,
    /// The margin of futility pruning at depth 0.
    pub fp_base_margin: OptionDescriptor<i32>,
    /// What each ply of reduced depth adds to that margin.
    pub fp_margin_depth_factor: OptionDescriptor<i32>,
    /// The depth above which null move pruning is tried.
    pub nmp_depth: OptionDescriptor<u8>,
    /// The least reduction of a null move search.
    pub nmp_margin: OptionDescriptor<u8>,
    /// The depth is divided by this for the rest of the reduction.
    pub nmp_divisor: OptionDescriptor<u8>,
    /// The same divisor for an improving side.
    pub nmp_divisor_improving: OptionDescriptor<u8>,
    /// The moves that late move pruning always spares.
    pub lmp_move_margin: OptionDescriptor<usize>,
    /// The moves that it spares for each ply of depth.
    pub lmp_depth_factor: OptionDescriptor<u8>,
    /// The depth from which late moves are reduced.
    pub lmr_depth: OptionDescriptor<u8>,
    /// The moves that late move reductions always spare.
    pub lmr_move_margin: OptionDescriptor<usize>,
    /// The least reduction of a late quiet move, as decimal text.
    pub lmr_quiet_margin: OptionDescriptor<String>,
    /// The divisor of the reduction of a late quiet move, as decimal text.
    pub lmr_quiet_divisor: OptionDescriptor<String>,
    /// The least reduction of a late capture or promotion, as decimal text.
    pub lmr_base_margin: OptionDescriptor<String>,
    /// The divisor of the reduction of a late capture or promotion, as decimal text.
    pub lmr_base_divisor: OptionDescriptor<String>,
    /// The rank of the move that the transposition table suggests.
    pub mo_tt_entry_value: OptionDescriptor<i32>,
    /// The weight of the captured piece in the rank of a capture.
    pub mo_capture_value: OptionDescriptor<i32>,
    /// The rank of a killer move.
    pub mo_killer_value: OptionDescriptor<i32>,
    /// The share of the remaining time that a move may take is one in this many.
    pub tc_time_divisor: OptionDescriptor<u64>,
    /// No iteration is started once the time passed, times this, is more than the move may take.
    pub tc_elapsed_factor: OptionDescriptor<i64>,
}

/// The number of an option among the options, by its name; the number of
/// options where no option has the name.
pub open spec fn spec_option_index(name: Seq<char>) -> int {
    if name == "MoveOverhead"@ {
        0
    } else if name == "Threads"@ {
        1
    } else if name == "Hash"@ {
        2
    } else if name == "QSearchDepth"@ {
        3
    } else if name == "RFPDepth"@ {
        4
    } else if name == "RFPBaseMargin"@ {
        5
    } else if name == "RFPReductionImproving"@ {
        6
    } else if name == "FPDepthMargin"@ {
        7
    } else if name == "FPBaseMargin"@ {
        8
    } else if name == "FPMarginDepthFactor"@ {
        9
    } else if name == "NMPDepth"@ {
        10
    } else if name == "NMPMargin"@ {
        11
    } else if name == "NMPDivisor"@ {
        12
    } else if name == "NMPDivisorImproving"@ {
        13
    } else if name == "LMPMoveMargin"@ {
        14
    } else if name == "LMPDepthFactor"@ {
        15
    } else if name == "LMRDepth"@ {
        16
    } else if name == "LMRMoveMargin"@ {
        17
    } else if name == "LMRQuietMargin"@ {
        18
    } else if name == "LMRQuietDivisor"@ {
        19
    } else if name == "LMRBaseMargin"@ {
        20
    } else if name == "LMRBaseDivisor"@ {
        21
    } else if name == "MOTTEntryValue"@ {
        22
    } else if name == "MOCaptureValue"@ {
        23
    } else if name == "MOKillerValue"@ {
        24
    } else if name == "TCTimeDivisor"@ {
        25
    } else if name == "TCElapsedFactor"@ {
        26
    } else {
        27
    }
}

/// The number of an option among the options, by its name.
pub fn option_index(name: &str) -> (r: usize)
    ensures
        r == spec_option_index(name@),
        r <= OPTION_COUNT,
{
    if same_text(name, "MoveOverhead") {
        0
    } else if same_text(name, "Threads") {
        1
    } else if same_text(name, "Hash") {
        2
    } else if same_text(name, "QSearchDepth") {
        3
    } else if same_text(name, "RFPDepth") {
        4
    } else if same_text(name, "RFPBaseMargin") {
        5
    } else if same_text(name, "RFPReductionImproving") {
        6
    } else if same_text(name, "FPDepthMargin") {
        7
    } else if same_text(name, "FPBaseMargin") {
        8
    } else if same_text(name, "FPMarginDepthFactor") {
        9
    } else if same_text(name, "NMPDepth") {
        10
    } else if same_text(name, "NMPMargin") {
        11
    } else if same_text(name, "NMPDivisor") {
        12
    } else if same_text(name, "NMPDivisorImproving") {
        13
    } else if same_text(name, "LMPMoveMargin") {
        14
    } else if same_text(name, "LMPDepthFactor") {
        15
    } else if same_text(name, "LMRDepth") {
        16
    } else if same_text(name, "LMRMoveMargin") {
        17
    } else if same_text(name, "LMRQuietMargin") {
        18
    } else if same_text(name, "LMRQuietDivisor") {
        19
    } else if same_text(name, "LMRBaseMargin") {
        20
    } else if same_text(name, "LMRBaseDivisor") {
        21
    } else if same_text(name, "MOTTEntryValue") {
        22
    } else if same_text(name, "MOCaptureValue") {
        23
    } else if same_text(name, "MOKillerValue") {
        24
    } else if same_text(name, "TCTimeDivisor") {
        25
    } else if same_text(name, "TCElapsedFactor") {
        26
    } else {
        27
    }
}

impl Config {
    /// Every number is in the range that is offered for it, and the ranges
    /// are those of the defaults.
    pub open spec fn wf(&self) -> bool {
        &&& self.move_overhead.min == 0
        &&& self.move_overhead.max == 10000
        &&& self.move_overhead.in_range()
        &&& self.threads.min == 1
        &&& self.threads.max == 1
        &&& self.threads.in_range()
        &&& self.hash.min == 1
        &&& self.hash.max == 1024
        &&& self.hash.in_range()
        &&& self.qsearch_depth.min == 1
        &&& self.qsearch_depth.max == 20
        &&& self.qsearch_depth.in_range()
        &&& self.rfp_depth.min == 1
        &&& self.rfp_depth.max == 20
        &&& self.rfp_depth.in_range()
        &&& self.rfp_base_margin.min == 1
        &&& self.rfp_base_margin.max == 200
        &&& self.rfp_base_margin.in_range()
        &&& self.rfp_reduction_improving.min == 1
        &&& self.rfp_reduction_improving.max == 200
        &&& self.rfp_reduction_improving.in_range()
        &&& self.fp_depth_margin.min == 1
        &&& self.fp_depth_margin.max == 20
        &&& self.fp_depth_margin.in_range()
        &&& self.fp_base_margin.min == 1
        &&& self.fp_base_margin.max == 200
        &&& self.fp_base_margin.in_range()
        &&& self.fp_margin_depth_factor.min == 1
        &&& self.fp_margin_depth_factor.max == 200
        &&& self.fp_margin_depth_factor.in_range()
        &&& self.nmp_depth.min == 1
        &&& self.nmp_depth.max == 20
        &&& self.nmp_depth.in_range()
        &&& self.nmp_margin.min == 1
        &&& self.nmp_margin.max == 20
        &&& self.nmp_margin.in_range()
        &&& self.nmp_divisor.min == 1
        &&& self.nmp_divisor.max == 20
        &&& self.nmp_divisor.in_range()
        &&& self.nmp_divisor_improving.min == 1
        &&& self.nmp_divisor_improving.max == 20
        &&& self.nmp_divisor_improving.in_range()
        &&& self.lmp_move_margin.min == 1
        &&& self.lmp_move_margin.max == 20
        &&& self.lmp_move_margin.in_range()
        &&& self.lmp_depth_factor.min == 1
        &&& self.lmp_depth_factor.max == 20
        &&& self.lmp_depth_factor.in_range()
        &&& self.lmr_depth.min == 1
        &&& self.lmr_depth.max == 20
        &&& self.lmr_depth.in_range()
        &&& self.lmr_move_margin.min == 1
        &&& self.lmr_move_margin.max == 20
        &&& self.lmr_move_margin.in_range()
        &&& self.mo_tt_entry_value.min == 1
        &&& self.mo_tt_entry_value.max == 500
        &&& self.mo_tt_entry_value.in_range()
        &&& self.mo_capture_value.min == 0
        &&& self.mo_capture_value.max == 500
        &&& self.mo_capture_value.in_range()
        &&& self.mo_killer_value.min == 0
        &&& self.mo_killer_value.max == 500
        &&& self.mo_killer_value.in_range()
        &&& self.tc_time_divisor.min == 2
        &&& self.tc_time_divisor.max == 100
        &&& self.tc_time_divisor.in_range()
        &&& self.tc_elapsed_factor.min == 1
        &&& self.tc_elapsed_factor.max == 10
        &&& self.tc_elapsed_factor.in_range()
    }

    /// Every option has its name, its kind, its default and its range.
    pub open spec fn is_default(&self) -> bool {
        &&& self.move_overhead.name@ == "MoveOverhead"@
        &&& self.move_overhead.kind == OptionKind::Spin
        &&& self.move_overhead.value == 0
        &&& self.move_overhead.min == 0
        &&& self.move_overhead.max == 10000
        &&& self.threads.name@ == "Threads"@
        &&& self.threads.kind == OptionKind::Spin
        &&& self.threads.value == 1
        &&& self.threads.min == 1
        &&& self.threads.max == 1
        &&& self.hash.name@ == "Hash"@
        &&& self.hash.kind == OptionKind::Spin
        &&& self.hash.value == 255
        &&& self.hash.min == 1
        &&& self.hash.max == 1024
        &&& self.qsearch_depth.name@ == "QSearchDepth"@
        &&& self.qsearch_depth.kind == OptionKind::Spin
        &&& self.qsearch_depth.value == 15
        &&& self.qsearch_depth.min == 1
        &&& self.qsearch_depth.max == 20
        &&& self.rfp_depth.name@ == "RFPDepth"@
        &&& self.rfp_depth.kind == OptionKind::Spin
        &&& self.rfp_depth.value == 11
        &&& self.rfp_depth.min == 1
        &&& self.rfp_depth.max == 20
        &&& self.rfp_base_margin.name@ == "RFPBaseMargin"@
        &&& self.rfp_base_margin.kind == OptionKind::Spin
        &&& self.rfp_base_margin.value == 55
        &&& self.rfp_base_margin.min == 1
        &&& self.rfp_base_margin.max == 200
        &&& self.rfp_reduction_improving.name@ == "RFPReductionImproving"@
        &&& self.rfp_reduction_improving.kind == OptionKind::Spin
        &&& self.rfp_reduction_improving.value == 23
        &&& self.rfp_reduction_improving.min == 1
        &&& self.rfp_reduction_improving.max == 200
        &&& self.fp_depth_margin.name@ == "FPDepthMargin"@
        &&& self.fp_depth_margin.kind == OptionKind::Spin
        &&& self.fp_depth_margin.value == 7
        &&& self.fp_depth_margin.min == 1
        &&& self.fp_depth_margin.max == 20
        &&& self.fp_base_margin.name@ == "FPBaseMargin"@
        &&& self.fp_base_margin.kind == OptionKind::Spin
        &&& self.fp_base_margin.value == 40
        &&& self.fp_base_margin.min == 1
        &&& self.fp_base_margin.max == 200
        &&& self.fp_margin_depth_factor.name@ == "FPMarginDepthFactor"@
        &&& self.fp_margin_depth_factor.kind == OptionKind::Spin
        &&& self.fp_margin_depth_factor.value == 30
        &&& self.fp_margin_depth_factor.min == 1
        &&& self.fp_margin_depth_factor.max == 200
        &&& self.nmp_depth.name@ == "NMPDepth"@
        &&& self.nmp_depth.kind == OptionKind::Spin
        &&& self.nmp_depth.value == 5
        &&& self.nmp_depth.min == 1
        &&& self.nmp_depth.max == 20
        &&& self.nmp_margin.name@ == "NMPMargin"@
        &&& self.nmp_margin.kind == OptionKind::Spin
        &&& self.nmp_margin.value == 10
        &&& self.nmp_margin.min == 1
        &&& self.nmp_margin.max == 20
        &&& self.nmp_divisor.name@ == "NMPDivisor"@
        &&& self.nmp_divisor.kind == OptionKind::Spin
        &&& self.nmp_divisor.value == 6
        &&& self.nmp_divisor.min == 1
        &&& self.nmp_divisor.max == 20
        &&& self.nmp_divisor_improving.name@ == "NMPDivisorImproving"@
        &&& self.nmp_divisor_improving.kind == OptionKind::Spin
        &&& self.nmp_divisor_improving.value == 5
        &&& self.nmp_divisor_improving.min == 1
        &&& self.nmp_divisor_improving.max == 20
        &&& self.lmp_move_margin.name@ == "LMPMoveMargin"@
        &&& self.lmp_move_margin.kind == OptionKind::Spin
        &&& self.lmp_move_margin.value == 2
        &&& self.lmp_move_margin.min == 1
        &&& self.lmp_move_margin.max == 20
        &&& self.lmp_depth_factor.name@ == "LMPDepthFactor"@
        &&& self.lmp_depth_factor.kind == OptionKind::Spin
        &&& self.lmp_depth_factor.value == 5
        &&& self.lmp_depth_factor.min == 1
        &&& self.lmp_depth_factor.max == 20
        &&& self.lmr_depth.name@ == "LMRDepth"@
        &&& self.lmr_depth.kind == OptionKind::Spin
        &&& self.lmr_depth.value == 12
        &&& self.lmr_depth.min == 1
        &&& self.lmr_depth.max == 20
        &&& self.lmr_move_margin.name@ == "LMRMoveMargin"@
        &&& self.lmr_move_margin.kind == OptionKind::Spin
        &&& self.lmr_move_margin.value == 9
        &&& self.lmr_move_margin.min == 1
        &&& self.lmr_move_margin.max == 20
        &&& self.lmr_quiet_margin.name@ == "LMRQuietMargin"@
        &&& self.lmr_quiet_margin.kind == OptionKind::String
        &&& self.lmr_quiet_margin.value@ == "2.74"@
        &&& self.lmr_quiet_margin.min@ == "0"@
        &&& self.lmr_quiet_margin.max@ == "10"@
        &&& self.lmr_quiet_divisor.name@ == "LMRQuietDivisor"@
        &&& self.lmr_quiet_divisor.kind == OptionKind::String
        &&& self.lmr_quiet_divisor.value@ == "1.65"@
        &&& self.lmr_quiet_divisor.min@ == "1"@
        &&& self.lmr_quiet_divisor.max@ == "10"@
        &&& self.lmr_base_margin.name@ == "LMRBaseMargin"@
        &&& self.lmr_base_margin.kind == OptionKind::String
        &&& self.lmr_base_margin.value@ == "0.25"@
        &&& self.lmr_base_margin.min@ == "1"@
        &&& self.lmr_base_margin.max@ == "10"@
        &&& self.lmr_base_divisor.name@ == "LMRBaseDivisor"@
        &&& self.lmr_base_divisor.kind == OptionKind::String
        &&& self.lmr_base_divisor.value@ == "1.7"@
        &&& self.lmr_base_divisor.min@ == "1"@
        &&& self.lmr_base_divisor.max@ == "10"@
        &&& self.mo_tt_entry_value.name@ == "MOTTEntryValue"@
        &&& self.mo_tt_entry_value.kind == OptionKind::Spin
        &&& self.mo_tt_entry_value.value == 233
        &&& self.mo_tt_entry_value.min == 1
        &&& self.mo_tt_entry_value.max == 500
        &&& self.mo_capture_value.name@ == "MOCaptureValue"@
        &&& self.mo_capture_value.kind == OptionKind::Spin
        &&& self.mo_capture_value.value == 60
        &&& self.mo_capture_value.min == 0
        &&& self.mo_capture_value.max == 500
        &&& self.mo_killer_value.name@ == "MOKillerValue"@
        &&& self.mo_killer_value.kind == OptionKind::Spin
        &&& self.mo_killer_value.value == 76
        &&& self.mo_killer_value.min == 0
        &&& self.mo_killer_value.max == 500
        &&& self.tc_time_divisor.name@ == "TCTimeDivisor"@
        &&& self.tc_time_divisor.kind == OptionKind::Spin
        &&& self.tc_time_divisor.value == 8
        &&& self.tc_time_divisor.min == 2
        &&& self.tc_time_divisor.max == 100
        &&& self.tc_elapsed_factor.name@ == "TCElapsedFactor"@
        &&& self.tc_elapsed_factor.kind == OptionKind::Spin
        &&& self.tc_elapsed_factor.value == 5
        &&& self.tc_elapsed_factor.min == 1
        &&& self.tc_elapsed_factor.max == 10
    }

    /// The options with their defaults.
    pub fn default() -> (r: Config)
        ensures
            r.is_default(),
            r.wf(),
    {
        Config {
            move_overhead: OptionDescriptor {
                name: "MoveOverhead",
                kind: OptionKind::Spin,
                value: 0,
                min: 0,
                max: 10000,
            },
            threads: OptionDescriptor {
                name: "Threads",
                kind: OptionKind::Spin,
                value: 1,
                min: 1,
                max: 1,
            },
            hash: OptionDescriptor {
                name: "Hash",
                kind: OptionKind::Spin,
                value: 255,
                min: 1,
                max: 1024,
            },
            qsearch_depth: OptionDescriptor {
                name: "QSearchDepth",
                kind: OptionKind::Spin,
                value: 15,
                min: 1,
                max: 20,
            },
            rfp_depth: OptionDescriptor {
                name: "RFPDepth",
                kind: OptionKind::Spin,
                value: 11,
                min: 1,
                max: 20,
            },
            rfp_base_margin: OptionDescriptor {
                name: "RFPBaseMargin",
                kind: OptionKind::Spin,
                value: 55,
                min: 1,
                max: 200,
            },
            rfp_reduction_improving: OptionDescriptor {
                name: "RFPReductionImproving",
                kind: OptionKind::Spin,
                value: 23,
                min: 1,
                max: 200,
            },
            fp_depth_margin: OptionDescriptor {
                name: "FPDepthMargin",
                kind: OptionKind::Spin,
                value: 7,
                min: 1,
                max: 20,
            },
            fp_base_margin: OptionDescriptor {
                name: "FPBaseMargin",
                kind: OptionKind::Spin,
                value: 40,
                min: 1,
                max: 200,
            },
            fp_margin_depth_factor: OptionDescriptor {
                name: "FPMarginDepthFactor",
                kind: OptionKind::Spin,
                value: 30,
                min: 1,
                max: 200,
            },
            nmp_depth: OptionDescriptor {
                name: "NMPDepth",
                kind: OptionKind::Spin,
                value: 5,
                min: 1,
                max: 20,
            },
            nmp_margin: OptionDescriptor {
                name: "NMPMargin",
                kind: OptionKind::Spin,
                value: 10,
                min: 1,
                max: 20,
            },
            nmp_divisor: OptionDescriptor {
                name: "NMPDivisor",
                kind: OptionKind::Spin,
                value: 6,
                min: 1,
                max: 20,
            },
            nmp_divisor_improving: OptionDescriptor {
                name: "NMPDivisorImproving",
                kind: OptionKind::Spin,
                value: 5,
                min: 1,
                max: 20,
            },
            lmp_move_margin: OptionDescriptor {
                name: "LMPMoveMargin",
                kind: OptionKind::Spin,
                value: 2,
                min: 1,
                max: 20,
            },
            lmp_depth_factor: OptionDescriptor {
                name: "LMPDepthFactor",
                kind: OptionKind::Spin,
                value: 5,
                min: 1,
                max: 20,
            },
            lmr_depth: OptionDescriptor {
                name: "LMRDepth",
                kind: OptionKind::Spin,
                value: 12,
                min: 1,
                max: 20,
            },
            lmr_move_margin: OptionDescriptor {
                name: "LMRMoveMargin",
                kind: OptionKind::Spin,
                value: 9,
                min: 1,
                max: 20,
            },
            lmr_quiet_margin: OptionDescriptor {
                name: "LMRQuietMargin",
                kind: OptionKind::String,
                value: String::from_str("2.74"),
                min: String::from_str("0"),
                max: String::from_str("10"),
            },
            lmr_quiet_divisor: OptionDescriptor {
                name: "LMRQuietDivisor",
                kind: OptionKind::String,
                value: String::from_str("1.65"),
                min: String::from_str("1"),
                max: String::from_str("10"),
            },
            lmr_base_margin: OptionDescriptor {
                name: "LMRBaseMargin",
                kind: OptionKind::String,
                value: String::from_str("0.25"),
                min: String::from_str("1"),
                max: String::from_str("10"),
            },
            lmr_base_divisor: OptionDescriptor {
                name: "LMRBaseDivisor",
                kind: OptionKind::String,
                value: String::from_str("1.7"),
                min: String::from_str("1"),
                max: String::from_str("10"),
            },
            mo_tt_entry_value: OptionDescriptor {
                name: "MOTTEntryValue",
                kind: OptionKind::Spin,
                value: 233,
                min: 1,
                max: 500,
            },
            mo_capture_value: OptionDescriptor {
                name: "MOCaptureValue",
                kind: OptionKind::Spin,
                value: 60,
                min: 0,
                max: 500,
            },
            mo_killer_value: OptionDescriptor {
                name: "MOKillerValue",
                kind: OptionKind::Spin,
                value: 76,
                min: 0,
                max: 500,
            },
            tc_time_divisor: OptionDescriptor {
                name: "TCTimeDivisor",
                kind: OptionKind::Spin,
                value: 8,
                min: 2,
                max: 100,
            },
            tc_elapsed_factor: OptionDescriptor {
                name: "TCElapsedFactor",
                kind: OptionKind::Spin,
                value: 5,
                min: 1,
                max: 10,
            },
        }
    }

    /// What comes of setting the option of a name to a value: an unknown
    /// name is unknown; the overhead is not supported; the number of
    /// threads is taken where it is the one number in its range, which
    /// changes nothing, and any other is not supported; a decimal text is
    /// taken as it is; and a number is applied where it is a number in the
    /// option's range and refused where it is not.
    pub open spec fn outcome_of(&self, name: Seq<char>, value: Seq<char>) -> SetOption {
        let index = spec_option_index(name);
        if index == OPTION_COUNT {
            SetOption::Unknown
        } else if index == 0 {
            SetOption::Unsupported
        } else if index == 1 {
            if self.number_for(1, value) is Some {
                SetOption::Applied
            } else {
                SetOption::Unsupported
            }
        } else if 18 <= index <= 21 {
            SetOption::Retuned
        } else if self.number_for(index, value) is None {
            SetOption::Refused
        } else if index == 2 {
            SetOption::Resized
        } else {
            SetOption::Applied
        }
    }

    /// The number that a value gives the option of an index, where the
    /// value is a number in the option's range.
    pub open spec fn number_for(&self, index: int, value: Seq<char>) -> Option<int> {
        if index == 0 {
            match unsigned_in(value, self.move_overhead.max as u128) {
                Some(n) => if n >= self.move_overhead.min {
                    Some(n as int)
                } else {
                    None
                },
                None => None,
            }
        } else if index == 1 {
            match unsigned_in(value, self.threads.max as u128) {
                Some(n) => if n >= self.threads.min {
                    Some(n as int)
                } else {
                    None
                },
                None => None,
            }
        } else if index == 2 {
            match unsigned_in(value, self.hash.max as u128) {
                Some(n) => if n >= self.hash.min {
                    Some(n as int)
                } else {
                    None
                },
                None => None,
            }
        } else if index == 3 {
            match unsigned_in(value, self.qsearch_depth.max as u128) {
                Some(n) => if n >= self.qsearch_depth.min {
                    Some(n as int)
                } else {
                    None
                },
                None => None,
            }
        } else if index == 4 {
            match unsigned_in(value, self.rfp_depth.max as u128) {
                Some(n) => if n >= self.rfp_depth.min {
                    Some(n as int)
                } else {
                    None
                },
                None => None,
            }
        } else if index == 5 {
            match signed_in(
                value,
                self.rfp_base_margin.min as i128,
                self.rfp_base_margin.max as i128,
            ) {
                Some(n) => Some(n as int),
                None => None,
            }
        } else if index == 6 {
            match signed_in(
                value,
                self.rfp_reduction_improving.min as i128,
                self.rfp_reduction_improving.max as i128,
            ) {
                Some(n) => Some(n as int),
                None => None,
            }
        } else if index == 7 {
            match unsigned_in(value, self.fp_depth_margin.max as u128) {
                Some(n) => if n >= self.fp_depth_margin.min {
                    Some(n as int)
                } else {
                    None
                },
                None => None,
            }
        } else if index == 8 {
            match signed_in(
                value,
                self.fp_base_margin.min as i128,
                self.fp_base_margin.max as i128,
            ) {
                Some(n) => Some(n as int),
                None => None,
            }
        } else if index == 9 {
            match signed_in(
                value,
                self.fp_margin_depth_factor.min as i128,
                self.fp_margin_depth_factor.max as i128,
            ) {
                Some(n) => Some(n as int),
                None => None,
            }
        } else if index == 10 {
            match unsigned_in(value, self.nmp_depth.max as u128) {
                Some(n) => if n >= self.nmp_depth.min {
                    Some(n as int)
                } else {
                    None
                },
                None => None,
            }
        } else if index == 11 {
            match unsigned_in(value, self.nmp_margin.max as u128) {
                Some(n) => if n >= self.nmp_margin.min {
                    Some(n as int)
                } else {
                    None
                },
                None => None,
            }
        } else if index == 12 {
            match unsigned_in(value, self.nmp_divisor.max as u128) {
                Some(n) => if n >= self.nmp_divisor.min {
                    Some(n as int)
                } else {
                    None
                },
                None => None,
            }
        } else if index == 13 {
            match unsigned_in(value, self.nmp_divisor_improving.max as u128) {
                Some(n) => if n >= self.nmp_divisor_improving.min {
                    Some(n as int)
                } else {
                    None
                },
                None => None,
            }
        } else if index == 14 {
            match unsigned_in(value, self.lmp_move_margin.max as u128) {
                Some(n) => if n >= self.lmp_move_margin.min {
                    Some(n as int)
                } else {
                    None
                },
                None => None,
            }
        } else if index == 15 {
            match unsigned_in(value, self.lmp_depth_factor.max as u128) {
                Some(n) => if n >= self.lmp_depth_factor.min {
                    Some(n as int)
                } else {
                    None
                },
                None => None,
            }
        } else if index == 16 {
            match unsigned_in(value, self.lmr_depth.max as u128) {
                Some(n) => if n >= self.lmr_depth.min {
                    Some(n as int)
                } else {
                    None
                },
                None => None,
            }
        } else if index == 17 {
            match unsigned_in(value, self.lmr_move_margin.max as u128) {
                Some(n) => if n >= self.lmr_move_margin.min {
                    Some(n as int)
                } else {
                    None
                },
                None => None,
            }
        } else if index == 22 {
            match signed_in(
                value,
                self.mo_tt_entry_value.min as i128,
                self.mo_tt_entry_value.max as i128,
            ) {
                Some(n) => Some(n as int),
                None => None,
            }
        } else if index == 23 {
            match signed_in(
                value,
                self.mo_capture_value.min as i128,
                self.mo_capture_value.max as i128,
            ) {
                Some(n) => Some(n as int),
                None => None,
            }
        } else if index == 24 {
            match signed_in(
                value,
                self.mo_killer_value.min as i128,
                self.mo_killer_value.max as i128,
            ) {
                Some(n) => Some(n as int),
                None => None,
            }
        } else if index == 25 {
            match unsigned_in(value, self.tc_time_divisor.max as u128) {
                Some(n) => if n >= self.tc_time_divisor.min {
                    Some(n as int)
                } else {
                    None
                },
                None => None,
            }
        } else if index == 26 {
            match signed_in(
                value,
                self.tc_elapsed_factor.min as i128,
                self.tc_elapsed_factor.max as i128,
            ) {
                Some(n) => Some(n as int),
                None => None,
            }
        } else {
            None
        }
    }

    /// The value that an option has after the option of a name was set to a
    /// value: the new number where it was applied to this very option, else
    /// the value it had.
    pub open spec fn number_after(
        &self,
        own_index: int,
        had: int,
        name: Seq<char>,
        value: Seq<char>,
    ) -> int {
        if spec_option_index(name) == own_index && own_index >= 2 {
            match self.number_for(own_index, value) {
                Some(n) => n,
                None => had,
            }
        } else {
            had
        }
    }

    /// The text that a decimal option holds after the option of a name was
    /// set to a value.
    pub open spec fn text_after(
        own_index: int,
        had: Seq<char>,
        name: Seq<char>,
        value: Seq<char>,
    ) -> Seq<char> {
        if spec_option_index(name) == own_index {
            value
        } else {
            had
        }
    }

    /// These options are `before` with the option of a name set to a value:
    /// every option has its name, kind and range, the option of the name
    /// has the value where that is a number in its range or it holds
    /// decimal text, and every other option has the value it had.
    pub open spec fn set_from(&self, before: &Config, name: Seq<char>, value: Seq<char>) -> bool {
        &&& self.move_overhead.name == before.move_overhead.name
        &&& self.move_overhead.kind == before.move_overhead.kind
        &&& self.move_overhead.min == before.move_overhead.min
        &&& self.move_overhead.max == before.move_overhead.max
        &&& self.move_overhead.value == before.number_after(
            0,
            before.move_overhead.value as int,
            name,
            value,
        )
        &&& self.threads.name == before.threads.name
        &&& self.threads.kind == before.threads.kind
        &&& self.threads.min == before.threads.min
        &&& self.threads.max == before.threads.max
        &&& self.threads.value == before.number_after(
            1,
            before.threads.value as int,
            name,
            value,
        )
        &&& self.hash.name == before.hash.name
        &&& self.hash.kind == before.hash.kind
        &&& self.hash.min == before.hash.min
        &&& self.hash.max == before.hash.max
        &&& self.hash.value == before.number_after(
            2,
            before.hash.value as int,
            name,
            value,
        )
        &&& self.qsearch_depth.name == before.qsearch_depth.name
        &&& self.qsearch_depth.kind == before.qsearch_depth.kind
        &&& self.qsearch_depth.min == before.qsearch_depth.min
        &&& self.qsearch_depth.max == before.qsearch_depth.max
        &&& self.qsearch_depth.value == before.number_after(
            3,
            before.qsearch_depth.value as int,
            name,
            value,
        )
        &&& self.rfp_depth.name == before.rfp_depth.name
        &&& self.rfp_depth.kind == before.rfp_depth.kind
        &&& self.rfp_depth.min == before.rfp_depth.min
        &&& self.rfp_depth.max == before.rfp_depth.max
        &&& self.rfp_depth.value == before.number_after(
            4,
            before.rfp_depth.value as int,
            name,
            value,
        )
        &&& self.rfp_base_margin.name == before.rfp_base_margin.name
        &&& self.rfp_base_margin.kind == before.rfp_base_margin.kind
        &&& self.rfp_base_margin.min == before.rfp_base_margin.min
        &&& self.rfp_base_margin.max == before.rfp_base_margin.max
        &&& self.rfp_base_margin.value == before.number_after(
            5,
            before.rfp_base_margin.value as int,
            name,
            value,
        )
        &&& self.rfp_reduction_improving.name == before.rfp_reduction_improving.name
        &&& self.rfp_reduction_improving.kind == before.rfp_reduction_improving.kind
        &&& self.rfp_reduction_improving.min == before.rfp_reduction_improving.min
        &&& self.rfp_reduction_improving.max == before.rfp_reduction_improving.max
        &&& self.rfp_reduction_improving.value == before.number_after(
            6,
            before.rfp_reduction_improving.value as int,
            name,
            value,
        )
        &&& self.fp_depth_margin.name == before.fp_depth_margin.name
        &&& self.fp_depth_margin.kind == before.fp_depth_margin.kind
        &&& self.fp_depth_margin.min == before.fp_depth_margin.min
        &&& self.fp_depth_margin.max == before.fp_depth_margin.max
        &&& self.fp_depth_margin.value == before.number_after(
            7,
            before.fp_depth_margin.value as int,
            name,
            value,
        )
        &&& self.fp_base_margin.name == before.fp_base_margin.name
        &&& self.fp_base_margin.kind == before.fp_base_margin.kind
        &&& self.fp_base_margin.min == before.fp_base_margin.min
        &&& self.fp_base_margin.max == before.fp_base_margin.max
        &&& self.fp_base_margin.value == before.number_after(
            8,
            before.fp_base_margin.value as int,
            name,
            value,
        )
        &&& self.fp_margin_depth_factor.name == before.fp_margin_depth_factor.name
        &&& self.fp_margin_depth_factor.kind == before.fp_margin_depth_factor.kind
        &&& self.fp_margin_depth_factor.min == before.fp_margin_depth_factor.min
        &&& self.fp_margin_depth_factor.max == before.fp_margin_depth_factor.max
        &&& self.fp_margin_depth_factor.value == before.number_after(
            9,
            before.fp_margin_depth_factor.value as int,
            name,
            value,
        )
        &&& self.nmp_depth.name == before.nmp_depth.name
        &&& self.nmp_depth.kind == before.nmp_depth.kind
        &&& self.nmp_depth.min == before.nmp_depth.min
        &&& self.nmp_depth.max == before.nmp_depth.max
        &&& self.nmp_depth.value == before.number_after(
            10,
            before.nmp_depth.value as int,
            name,
            value,
        )
        &&& self.nmp_margin.name == before.nmp_margin.name
        &&& self.nmp_margin.kind == before.nmp_margin.kind
        &&& self.nmp_margin.min == before.nmp_margin.min
        &&& self.nmp_margin.max == before.nmp_margin.max
        &&& self.nmp_margin.value == before.number_after(
            11,
            before.nmp_margin.value as int,
            name,
            value,
        )
        &&& self.nmp_divisor.name == before.nmp_divisor.name
        &&& self.nmp_divisor.kind == before.nmp_divisor.kind
        &&& self.nmp_divisor.min == before.nmp_divisor.min
        &&& self.nmp_divisor.max == before.nmp_divisor.max
        &&& self.nmp_divisor.value == before.number_after(
            12,
            before.nmp_divisor.value as int,
            name,
            value,
        )
        &&& self.nmp_divisor_improving.name == before.nmp_divisor_improving.name
        &&& self.nmp_divisor_improving.kind == before.nmp_divisor_improving.kind
        &&& self.nmp_divisor_improving.min == before.nmp_divisor_improving.min
        &&& self.nmp_divisor_improving.max == before.nmp_divisor_improving.max
        &&& self.nmp_divisor_improving.value == before.number_after(
            13,
            before.nmp_divisor_improving.value as int,
            name,
            value,
        )
        &&& self.lmp_move_margin.name == before.lmp_move_margin.name
        &&& self.lmp_move_margin.kind == before.lmp_move_margin.kind
        &&& self.lmp_move_margin.min == before.lmp_move_margin.min
        &&& self.lmp_move_margin.max == before.lmp_move_margin.max
        &&& self.lmp_move_margin.value == before.number_after(
            14,
            before.lmp_move_margin.value as int,
            name,
            value,
        )
        &&& self.lmp_depth_factor.name == before.lmp_depth_factor.name
        &&& self.lmp_depth_factor.kind == before.lmp_depth_factor.kind
        &&& self.lmp_depth_factor.min == before.lmp_depth_factor.min
        &&& self.lmp_depth_factor.max == before.lmp_depth_factor.max
        &&& self.lmp_depth_factor.value == before.number_after(
            15,
            before.lmp_depth_factor.value as int,
            name,
            value,
        )
        &&& self.lmr_depth.name == before.lmr_depth.name
        &&& self.lmr_depth.kind == before.lmr_depth.kind
        &&& self.lmr_depth.min == before.lmr_depth.min
        &&& self.lmr_depth.max == before.lmr_depth.max
        &&& self.lmr_depth.value == before.number_after(
            16,
            before.lmr_depth.value as int,
            name,
            value,
        )
        &&& self.lmr_move_margin.name == before.lmr_move_margin.name
        &&& self.lmr_move_margin.kind == before.lmr_move_margin.kind
        &&& self.lmr_move_margin.min == before.lmr_move_margin.min
        &&& self.lmr_move_margin.max == before.lmr_move_margin.max
        &&& self.lmr_move_margin.value == before.number_after(
            17,
            before.lmr_move_margin.value as int,
            name,
            value,
        )
        &&& self.lmr_quiet_margin.name == before.lmr_quiet_margin.name
        &&& self.lmr_quiet_margin.kind == before.lmr_quiet_margin.kind
        &&& self.lmr_quiet_margin.min == before.lmr_quiet_margin.min
        &&& self.lmr_quiet_margin.max == before.lmr_quiet_margin.max
        &&& self.lmr_quiet_margin.value@ == Config::text_after(
            18,
            before.lmr_quiet_margin.value@,
            name,
            value,
        )
        &&& self.lmr_quiet_divisor.name == before.lmr_quiet_divisor.name
        &&& self.lmr_quiet_divisor.kind == before.lmr_quiet_divisor.kind
        &&& self.lmr_quiet_divisor.min == before.lmr_quiet_divisor.min
        &&& self.lmr_quiet_divisor.max == before.lmr_quiet_divisor.max
        &&& self.lmr_quiet_divisor.value@ == Config::text_after(
            19,
            before.lmr_quiet_divisor.value@,
            name,
            value,
        )
        &&& self.lmr_base_margin.name == before.lmr_base_margin.name
        &&& self.lmr_base_margin.kind == before.lmr_base_margin.kind
        &&& self.lmr_base_margin.min == before.lmr_base_margin.min
        &&& self.lmr_base_margin.max == before.lmr_base_margin.max
        &&& self.lmr_base_margin.value@ == Config::text_after(
            20,
            before.lmr_base_margin.value@,
            name,
            value,
        )
        &&& self.lmr_base_divisor.name == before.lmr_base_divisor.name
        &&& self.lmr_base_divisor.kind == before.lmr_base_divisor.kind
        &&& self.lmr_base_divisor.min == before.lmr_base_divisor.min
        &&& self.lmr_base_divisor.max == before.lmr_base_divisor.max
        &&& self.lmr_base_divisor.value@ == Config::text_after(
            21,
            before.lmr_base_divisor.value@,
            name,
            value,
        )
        &&& self.mo_tt_entry_value.name == before.mo_tt_entry_value.name
        &&& self.mo_tt_entry_value.kind == before.mo_tt_entry_value.kind
        &&& self.mo_tt_entry_value.min == before.mo_tt_entry_value.min
        &&& self.mo_tt_entry_value.max == before.mo_tt_entry_value.max
        &&& self.mo_tt_entry_value.value == before.number_after(
            22,
            before.mo_tt_entry_value.value as int,
            name,
            value,
        )
        &&& self.mo_capture_value.name == before.mo_capture_value.name
        &&& self.mo_capture_value.kind == before.mo_capture_value.kind
        &&& self.mo_capture_value.min == before.mo_capture_value.min
        &&& self.mo_capture_value.max == before.mo_capture_value.max
        &&& self.mo_capture_value.value == before.number_after(
            23,
            before.mo_capture_value.value as int,
            name,
            value,
        )
        &&& self.mo_killer_value.name == before.mo_killer_value.name
        &&& self.mo_killer_value.kind == before.mo_killer_value.kind
        &&& self.mo_killer_value.min == before.mo_killer_value.min
        &&& self.mo_killer_value.max == before.mo_killer_value.max
        &&& self.mo_killer_value.value == before.number_after(
            24,
            before.mo_killer_value.value as int,
            name,
            value,
        )
        &&& self.tc_time_divisor.name == before.tc_time_divisor.name
        &&& self.tc_time_divisor.kind == before.tc_time_divisor.kind
        &&& self.tc_time_divisor.min == before.tc_time_divisor.min
        &&& self.tc_time_divisor.max == before.tc_time_divisor.max
        &&& self.tc_time_divisor.value == before.number_after(
            25,
            before.tc_time_divisor.value as int,
            name,
            value,
        )
        &&& self.tc_elapsed_factor.name == before.tc_elapsed_factor.name
        &&& self.tc_elapsed_factor.kind == before.tc_elapsed_factor.kind
        &&& self.tc_elapsed_factor.min == before.tc_elapsed_factor.min
        &&& self.tc_elapsed_factor.max == before.tc_elapsed_factor.max
        &&& self.tc_elapsed_factor.value == before.number_after(
            26,
            before.tc_elapsed_factor.value as int,
            name,
            value,
        )
    }

    /// Sets the option of a name to a value given as text.
    #[verifier::rlimit(100)]
    #[verifier::spinoff_prover]
    pub fn set_option(&mut self, name: &str, value: &str) -> (r: SetOption)
        ensures
            r == old(self).outcome_of(name@, value@),
            old(self).wf() ==> final(self).wf(),
            final(self).set_from(old(self), name@, value@),
    {
        let index = option_index(name);
        if index == OPTION_COUNT {
            return SetOption::Unknown;
        }
        if index == 0 {
            return SetOption::Unsupported;
        }
        if index == 1 {
            match parse_unsigned_in(value, self.threads.max as u128) {
                Some(n) => {
                    if n >= self.threads.min as u128 {
                        return SetOption::Applied;
                    }
                    return SetOption::Unsupported;
                },
                None => {
                    return SetOption::Unsupported;
                },
            }
        }
        if index == 2 {
            match parse_unsigned_in(value, self.hash.max as u128) {
                Some(n) => {
                    if n >= self.hash.min as u128 {
                        self.hash.value = n as usize;
                        return SetOption::Resized;
                    }
                    return SetOption::Refused;
                },
                None => {
                    return SetOption::Refused;
                },
            }
        }
        if index == 3 {
            match parse_unsigned_in(value, self.qsearch_depth.max as u128) {
                Some(n) => {
                    if n >= self.qsearch_depth.min as u128 {
                        self.qsearch_depth.value = n as u8;
                        return SetOption::Applied;
                    }
                    return SetOption::Refused;
                },
                None => {
                    return SetOption::Refused;
                },
            }
        }
        if index == 4 {
            match parse_unsigned_in(value, self.rfp_depth.max as u128) {
                Some(n) => {
                    if n >= self.rfp_depth.min as u128 {
                        self.rfp_depth.value = n as u8;
                        return SetOption::Applied;
                    }
                    return SetOption::Refused;
                },
                None => {
                    return SetOption::Refused;
                },
            }
        }
        if index == 5 {
            match parse_signed_in(
                value,
                self.rfp_base_margin.min as i128,
                self.rfp_base_margin.max as i128,
            ) {
                Some(n) => {
                    self.rfp_base_margin.value = n as i32;
                    return SetOption::Applied;
                },
                None => {
                    return SetOption::Refused;
                },
            }
        }
        if index == 6 {
            match parse_signed_in(
                value,
                self.rfp_reduction_improving.min as i128,
                self.rfp_reduction_improving.max as i128,
            ) {
                Some(n) => {
                    self.rfp_reduction_improving.value = n as i32;
                    return SetOption::Applied;
                },
                None => {
                    return SetOption::Refused;
                },
            }
        }
        if index == 7 {
            match parse_unsigned_in(value, self.fp_depth_margin.max as u128) {
                Some(n) => {
                    if n >= self.fp_depth_margin.min as u128 {
                        self.fp_depth_margin.value = n as u8;
                        return SetOption::Applied;
                    }
                    return SetOption::Refused;
                },
                None => {
                    return SetOption::Refused;
                },
            }
        }
        if index == 8 {
            match parse_signed_in(
                value,
                self.fp_base_margin.min as i128,
                self.fp_base_margin.max as i128,
            ) {
                Some(n) => {
                    self.fp_base_margin.value = n as i32;
                    return SetOption::Applied;
                },
                None => {
                    return SetOption::Refused;
                },
            }
        }
        if index == 9 {
            match parse_signed_in(
                value,
                self.fp_margin_depth_factor.min as i128,
                self.fp_margin_depth_factor.max as i128,
            ) {
                Some(n) => {
                    self.fp_margin_depth_factor.value = n as i32;
                    return SetOption::Applied;
                },
                None => {
                    return SetOption::Refused;
                },
            }
        }
        if index == 10 {
            match parse_unsigned_in(value, self.nmp_depth.max as u128) {
                Some(n) => {
                    if n >= self.nmp_depth.min as u128 {
                        self.nmp_depth.value = n as u8;
                        return SetOption::Applied;
                    }
                    return SetOption::Refused;
                },
                None => {
                    return SetOption::Refused;
                },
            }
        }
        if index == 11 {
            match parse_unsigned_in(value, self.nmp_margin.max as u128) {
                Some(n) => {
                    if n >= self.nmp_margin.min as u128 {
                        self.nmp_margin.value = n as u8;
                        return SetOption::Applied;
                    }
                    return SetOption::Refused;
                },
                None => {
                    return SetOption::Refused;
                },
            }
        }
        if index == 12 {
            match parse_unsigned_in(value, self.nmp_divisor.max as u128) {
                Some(n) => {
                    if n >= self.nmp_divisor.min as u128 {
                        self.nmp_divisor.value = n as u8;
                        return SetOption::Applied;
                    }
                    return SetOption::Refused;
                },
                None => {
                    return SetOption::Refused;
                },
            }
        }
        if index == 13 {
            match parse_unsigned_in(value, self.nmp_divisor_improving.max as u128) {
                Some(n) => {
                    if n >= self.nmp_divisor_improving.min as u128 {
                        self.nmp_divisor_improving.value = n as u8;
                        return SetOption::Applied;
                    }
                    return SetOption::Refused;
                },
                None => {
                    return SetOption::Refused;
                },
            }
        }
        if index == 14 {
            match parse_unsigned_in(value, self.lmp_move_margin.max as u128) {
                Some(n) => {
                    if n >= self.lmp_move_margin.min as u128 {
                        self.lmp_move_margin.value = n as usize;
                        return SetOption::Applied;
                    }
                    return SetOption::Refused;
                },
                None => {
                    return SetOption::Refused;
                },
            }
        }
        if index == 15 {
            match parse_unsigned_in(value, self.lmp_depth_factor.max as u128) {
                Some(n) => {
                    if n >= self.lmp_depth_factor.min as u128 {
                        self.lmp_depth_factor.value = n as u8;
                        return SetOption::Applied;
                    }
                    return SetOption::Refused;
                },
                None => {
                    return SetOption::Refused;
                },
            }
        }
        if index == 16 {
            match parse_unsigned_in(value, self.lmr_depth.max as u128) {
                Some(n) => {
                    if n >= self.lmr_depth.min as u128 {
                        self.lmr_depth.value = n as u8;
                        return SetOption::Applied;
                    }
                    return SetOption::Refused;
                },
                None => {
                    return SetOption::Refused;
                },
            }
        }
        if index == 17 {
            match parse_unsigned_in(value, self.lmr_move_margin.max as u128) {
                Some(n) => {
                    if n >= self.lmr_move_margin.min as u128 {
                        self.lmr_move_margin.value = n as usize;
                        return SetOption::Applied;
                    }
                    return SetOption::Refused;
                },
                None => {
                    return SetOption::Refused;
                },
            }
        }
        if index == 18 {
            self.lmr_quiet_margin.value = String::from_str(value);
            return SetOption::Retuned;
        }
        if index == 19 {
            self.lmr_quiet_divisor.value = String::from_str(value);
            return SetOption::Retuned;
        }
        if index == 20 {
            self.lmr_base_margin.value = String::from_str(value);
            return SetOption::Retuned;
        }
        if index == 21 {
            self.lmr_base_divisor.value = String::from_str(value);
            return SetOption::Retuned;
        }
        if index == 22 {
            match parse_signed_in(
                value,
                self.mo_tt_entry_value.min as i128,
                self.mo_tt_entry_value.max as i128,
            ) {
                Some(n) => {
                    self.mo_tt_entry_value.value = n as i32;
                    return SetOption::Applied;
                },
                None => {
                    return SetOption::Refused;
                },
            }
        }
        if index == 23 {
            match parse_signed_in(
                value,
                self.mo_capture_value.min as i128,
                self.mo_capture_value.max as i128,
            ) {
                Some(n) => {
                    self.mo_capture_value.value = n as i32;
                    return SetOption::Applied;
                },
                None => {
                    return SetOption::Refused;
                },
            }
        }
        if index == 24 {
            match parse_signed_in(
                value,
                self.mo_killer_value.min as i128,
                self.mo_killer_value.max as i128,
            ) {
                Some(n) => {
                    self.mo_killer_value.value = n as i32;
                    return SetOption::Applied;
                },
                None => {
                    return SetOption::Refused;
                },
            }
        }
        if index == 25 {
            match parse_unsigned_in(value, self.tc_time_divisor.max as u128) {
                Some(n) => {
                    if n >= self.tc_time_divisor.min as u128 {
                        self.tc_time_divisor.value = n as u64;
                        return SetOption::Applied;
                    }
                    return SetOption::Refused;
                },
                None => {
                    return SetOption::Refused;
                },
            }
        }
        if index == 26 {
            match parse_signed_in(
                value,
                self.tc_elapsed_factor.min as i128,
                self.tc_elapsed_factor.max as i128,
            ) {
                Some(n) => {
                    self.tc_elapsed_factor.value = n as i64;
                    return SetOption::Applied;
                },
                None => {
                    return SetOption::Refused;
                },
            }
        }
        SetOption::Unknown
    }

    /// The lines that offer the options to a user of the protocol, in the
    /// order of the protocol's answer.
    pub open spec fn option_lines(&self) -> Seq<Seq<char>> {
        seq![
            option_text(
                self.move_overhead.name@,
                self.move_overhead.kind.word(),
                decimal(self.move_overhead.value as int),
                decimal(self.move_overhead.min as int),
                decimal(self.move_overhead.max as int),
            ),
            option_text(
                self.threads.name@,
                self.threads.kind.word(),
                decimal(self.threads.value as int),
                decimal(self.threads.min as int),
                decimal(self.threads.max as int),
            ),
            option_text(
                self.hash.name@,
                self.hash.kind.word(),
                decimal(self.hash.value as int),
                decimal(self.hash.min as int),
                decimal(self.hash.max as int),
            ),
            option_text(
                self.qsearch_depth.name@,
                self.qsearch_depth.kind.word(),
                decimal(self.qsearch_depth.value as int),
                decimal(self.qsearch_depth.min as int),
                decimal(self.qsearch_depth.max as int),
            ),
            option_text(
                self.rfp_depth.name@,
                self.rfp_depth.kind.word(),
                decimal(self.rfp_depth.value as int),
                decimal(self.rfp_depth.min as int),
                decimal(self.rfp_depth.max as int),
            ),
            option_text(
                self.rfp_base_margin.name@,
                self.rfp_base_margin.kind.word(),
                decimal(self.rfp_base_margin.value as int),
                decimal(self.rfp_base_margin.min as int),
                decimal(self.rfp_base_margin.max as int),
            ),
            option_text(
                self.rfp_reduction_improving.name@,
                self.rfp_reduction_improving.kind.word(),
                decimal(self.rfp_reduction_improving.value as int),
                decimal(self.rfp_reduction_improving.min as int),
                decimal(self.rfp_reduction_improving.max as int),
            ),
            option_text(
                self.fp_base_margin.name@,
                self.fp_base_margin.kind.word(),
                decimal(self.fp_base_margin.value as int),
                decimal(self.fp_base_margin.min as int),
                decimal(self.fp_base_margin.max as int),
            ),
            option_text(
                self.fp_depth_margin.name@,
                self.fp_depth_margin.kind.word(),
                decimal(self.fp_depth_margin.value as int),
                decimal(self.fp_depth_margin.min as int),
                decimal(self.fp_depth_margin.max as int),
            ),
            option_text(
                self.fp_margin_depth_factor.name@,
                self.fp_margin_depth_factor.kind.word(),
                decimal(self.fp_margin_depth_factor.value as int),
                decimal(self.fp_margin_depth_factor.min as int),
                decimal(self.fp_margin_depth_factor.max as int),
            ),
            option_text(
                self.nmp_depth.name@,
                self.nmp_depth.kind.word(),
                decimal(self.nmp_depth.value as int),
                decimal(self.nmp_depth.min as int),
                decimal(self.nmp_depth.max as int),
            ),
            option_text(
                self.nmp_margin.name@,
                self.nmp_margin.kind.word(),
                decimal(self.nmp_margin.value as int),
                decimal(self.nmp_margin.min as int),
                decimal(self.nmp_margin.max as int),
            ),
            option_text(
                self.nmp_divisor.name@,
                self.nmp_divisor.kind.word(),
                decimal(self.nmp_divisor.value as int),
                decimal(self.nmp_divisor.min as int),
                decimal(self.nmp_divisor.max as int),
            ),
            option_text(
                self.nmp_divisor_improving.name@,
                self.nmp_divisor_improving.kind.word(),
                decimal(self.nmp_divisor_improving.value as int),
                decimal(self.nmp_divisor_improving.min as int),
                decimal(self.nmp_divisor_improving.max as int),
            ),
            option_text(
                self.lmp_move_margin.name@,
                self.lmp_move_margin.kind.word(),
                decimal(self.lmp_move_margin.value as int),
                decimal(self.lmp_move_margin.min as int),
                decimal(self.lmp_move_margin.max as int),
            ),
            option_text(
                self.lmp_depth_factor.name@,
                self.lmp_depth_factor.kind.word(),
                decimal(self.lmp_depth_factor.value as int),
                decimal(self.lmp_depth_factor.min as int),
                decimal(self.lmp_depth_factor.max as int),
            ),
            option_text(
                self.lmr_depth.name@,
                self.lmr_depth.kind.word(),
                decimal(self.lmr_depth.value as int),
                decimal(self.lmr_depth.min as int),
                decimal(self.lmr_depth.max as int),
            ),
            option_text(
                self.lmr_move_margin.name@,
                self.lmr_move_margin.kind.word(),
                decimal(self.lmr_move_margin.value as int),
                decimal(self.lmr_move_margin.min as int),
                decimal(self.lmr_move_margin.max as int),
            ),
            option_text(
                self.lmr_quiet_margin.name@,
                self.lmr_quiet_margin.kind.word(),
                self.lmr_quiet_margin.value@,
                self.lmr_quiet_margin.min@,
                self.lmr_quiet_margin.max@,
            ),
            option_text(
                self.lmr_quiet_divisor.name@,
                self.lmr_quiet_divisor.kind.word(),
                self.lmr_quiet_divisor.value@,
                self.lmr_quiet_divisor.min@,
                self.lmr_quiet_divisor.max@,
            ),
            option_text(
                self.lmr_base_margin.name@,
                self.lmr_base_margin.kind.word(),
                self.lmr_base_margin.value@,
                self.lmr_base_margin.min@,
                self.lmr_base_margin.max@,
            ),
            option_text(
                self.lmr_base_divisor.name@,
                self.lmr_base_divisor.kind.word(),
                self.lmr_base_divisor.value@,
                self.lmr_base_divisor.min@,
                self.lmr_base_divisor.max@,
            ),
            option_text(
                self.mo_tt_entry_value.name@,
                self.mo_tt_entry_value.kind.word(),
                decimal(self.mo_tt_entry_value.value as int),
                decimal(self.mo_tt_entry_value.min as int),
                decimal(self.mo_tt_entry_value.max as int),
            ),
            option_text(
                self.mo_capture_value.name@,
                self.mo_capture_value.kind.word(),
                decimal(self.mo_capture_value.value as int),
                decimal(self.mo_capture_value.min as int),
                decimal(self.mo_capture_value.max as int),
            ),
            option_text(
                self.mo_killer_value.name@,
                self.mo_killer_value.kind.word(),
                decimal(self.mo_killer_value.value as int),
                decimal(self.mo_killer_value.min as int),
                decimal(self.mo_killer_value.max as int),
            ),
            option_text(
                self.tc_time_divisor.name@,
                self.tc_time_divisor.kind.word(),
                decimal(self.tc_time_divisor.value as int),
                decimal(self.tc_time_divisor.min as int),
                decimal(self.tc_time_divisor.max as int),
            ),
            option_text(
                self.tc_elapsed_factor.name@,
                self.tc_elapsed_factor.kind.word(),
                decimal(self.tc_elapsed_factor.value as int),
                decimal(self.tc_elapsed_factor.min as int),
                decimal(self.tc_elapsed_factor.max as int),
            ),
        ]
    }

    /// The lines that offer the options to a tuner, in the order of its
    /// workload: every option but the overhead, the threads and the size
    /// of the transposition table.
    pub open spec fn tuning_lines(&self) -> Seq<Seq<char>> {
        seq![
            spsa_text(
                self.qsearch_depth.name@,
                "int"@,
                decimal(self.qsearch_depth.value as int),
                decimal(self.qsearch_depth.min as int),
                decimal(self.qsearch_depth.max as int),
            ),
            spsa_text(
                self.rfp_depth.name@,
                "int"@,
                decimal(self.rfp_depth.value as int),
                decimal(self.rfp_depth.min as int),
                decimal(self.rfp_depth.max as int),
            ),
            spsa_text(
                self.rfp_base_margin.name@,
                "int"@,
                decimal(self.rfp_base_margin.value as int),
                decimal(self.rfp_base_margin.min as int),
                decimal(self.rfp_base_margin.max as int),
            ),
            spsa_text(
                self.rfp_reduction_improving.name@,
                "int"@,
                decimal(self.rfp_reduction_improving.value as int),
                decimal(self.rfp_reduction_improving.min as int),
                decimal(self.rfp_reduction_improving.max as int),
            ),
            spsa_text(
                self.fp_base_margin.name@,
                "int"@,
                decimal(self.fp_base_margin.value as int),
                decimal(self.fp_base_margin.min as int),
                decimal(self.fp_base_margin.max as int),
            ),
            spsa_text(
                self.fp_depth_margin.name@,
                "int"@,
                decimal(self.fp_depth_margin.value as int),
                decimal(self.fp_depth_margin.min as int),
                decimal(self.fp_depth_margin.max as int),
            ),
            spsa_text(
                self.fp_margin_depth_factor.name@,
                "int"@,
                decimal(self.fp_margin_depth_factor.value as int),
                decimal(self.fp_margin_depth_factor.min as int),
                decimal(self.fp_margin_depth_factor.max as int),
            ),
            spsa_text(
                self.nmp_depth.name@,
                "int"@,
                decimal(self.nmp_depth.value as int),
                decimal(self.nmp_depth.min as int),
                decimal(self.nmp_depth.max as int),
            ),
            spsa_text(
                self.nmp_margin.name@,
                "int"@,
                decimal(self.nmp_margin.value as int),
                decimal(self.nmp_margin.min as int),
                decimal(self.nmp_margin.max as int),
            ),
            spsa_text(
                self.nmp_divisor.name@,
                "int"@,
                decimal(self.nmp_divisor.value as int),
                decimal(self.nmp_divisor.min as int),
                decimal(self.nmp_divisor.max as int),
            ),
            spsa_text(
                self.nmp_divisor_improving.name@,
                "int"@,
                decimal(self.nmp_divisor_improving.value as int),
                decimal(self.nmp_divisor_improving.min as int),
                decimal(self.nmp_divisor_improving.max as int),
            ),
            spsa_text(
                self.lmp_move_margin.name@,
                "int"@,
                decimal(self.lmp_move_margin.value as int),
                decimal(self.lmp_move_margin.min as int),
                decimal(self.lmp_move_margin.max as int),
            ),
            spsa_text(
                self.lmp_depth_factor.name@,
                "int"@,
                decimal(self.lmp_depth_factor.value as int),
                decimal(self.lmp_depth_factor.min as int),
                decimal(self.lmp_depth_factor.max as int),
            ),
            spsa_text(
                self.lmr_depth.name@,
                "int"@,
                decimal(self.lmr_depth.value as int),
                decimal(self.lmr_depth.min as int),
                decimal(self.lmr_depth.max as int),
            ),
            spsa_text(
                self.lmr_move_margin.name@,
                "int"@,
                decimal(self.lmr_move_margin.value as int),
                decimal(self.lmr_move_margin.min as int),
                decimal(self.lmr_move_margin.max as int),
            ),
            spsa_text(
                self.lmr_quiet_margin.name@,
                "float"@,
                self.lmr_quiet_margin.value@,
                self.lmr_quiet_margin.min@,
                self.lmr_quiet_margin.max@,
            ),
            spsa_text(
                self.lmr_quiet_divisor.name@,
                "float"@,
                self.lmr_quiet_divisor.value@,
                self.lmr_quiet_divisor.min@,
                self.lmr_quiet_divisor.max@,
            ),
            spsa_text(
                self.lmr_base_margin.name@,
                "float"@,
                self.lmr_base_margin.value@,
                self.lmr_base_margin.min@,
                self.lmr_base_margin.max@,
            ),
            spsa_text(
                self.lmr_base_divisor.name@,
                "float"@,
                self.lmr_base_divisor.value@,
                self.lmr_base_divisor.min@,
                self.lmr_base_divisor.max@,
            ),
            spsa_text(
                self.mo_tt_entry_value.name@,
                "int"@,
                decimal(self.mo_tt_entry_value.value as int),
                decimal(self.mo_tt_entry_value.min as int),
                decimal(self.mo_tt_entry_value.max as int),
            ),
            spsa_text(
                self.mo_capture_value.name@,
                "int"@,
                decimal(self.mo_capture_value.value as int),
                decimal(self.mo_capture_value.min as int),
                decimal(self.mo_capture_value.max as int),
            ),
            spsa_text(
                self.mo_killer_value.name@,
                "int"@,
                decimal(self.mo_killer_value.value as int),
                decimal(self.mo_killer_value.min as int),
                decimal(self.mo_killer_value.max as int),
            ),
            spsa_text(
                self.tc_time_divisor.name@,
                "int"@,
                decimal(self.tc_time_divisor.value as int),
                decimal(self.tc_time_divisor.min as int),
                decimal(self.tc_time_divisor.max as int),
            ),
            spsa_text(
                self.tc_elapsed_factor.name@,
                "int"@,
                decimal(self.tc_elapsed_factor.value as int),
                decimal(self.tc_elapsed_factor.min as int),
                decimal(self.tc_elapsed_factor.max as int),
            ),
        ]
    }

    /// The lines that offer the options to a user of the protocol.
    #[verifier::rlimit(100)]
    pub fn describe_all(&self) -> (r: Vec<String>)
        ensures
            r.len() == OPTION_COUNT,
            views(r@) == self.option_lines(),
    {
        let mut lines: Vec<String> = Vec::new();
        lines.push(self.move_overhead.describe());
        lines.push(self.threads.describe());
        lines.push(self.hash.describe());
        lines.push(self.qsearch_depth.describe());
        lines.push(self.rfp_depth.describe());
        lines.push(self.rfp_base_margin.describe());
        lines.push(self.rfp_reduction_improving.describe());
        lines.push(self.fp_base_margin.describe());
        lines.push(self.fp_depth_margin.describe());
        lines.push(self.fp_margin_depth_factor.describe());
        lines.push(self.nmp_depth.describe());
        lines.push(self.nmp_margin.describe());
        lines.push(self.nmp_divisor.describe());
        lines.push(self.nmp_divisor_improving.describe());
        lines.push(self.lmp_move_margin.describe());
        lines.push(self.lmp_depth_factor.describe());
        lines.push(self.lmr_depth.describe());
        lines.push(self.lmr_move_margin.describe());
        lines.push(self.lmr_quiet_margin.describe());
        lines.push(self.lmr_quiet_divisor.describe());
        lines.push(self.lmr_base_margin.describe());
        lines.push(self.lmr_base_divisor.describe());
        lines.push(self.mo_tt_entry_value.describe());
        lines.push(self.mo_capture_value.describe());
        lines.push(self.mo_killer_value.describe());
        lines.push(self.tc_time_divisor.describe());
        lines.push(self.tc_elapsed_factor.describe());
        proof {
            let said = views(lines@);
            let wanted = self.option_lines();
            assert(said.len() == wanted.len());
            assert(said[0] == wanted[0]);
            assert(said[1] == wanted[1]);
            assert(said[2] == wanted[2]);
            assert(said[3] == wanted[3]);
            assert(said[4] == wanted[4]);
            assert(said[5] == wanted[5]);
            assert(said[6] == wanted[6]);
            assert(said[7] == wanted[7]);
            assert(said[8] == wanted[8]);
            assert(said[9] == wanted[9]);
            assert(said[10] == wanted[10]);
            assert(said[11] == wanted[11]);
            assert(said[12] == wanted[12]);
            assert(said[13] == wanted[13]);
            assert(said[14] == wanted[14]);
            assert(said[15] == wanted[15]);
            assert(said[16] == wanted[16]);
            assert(said[17] == wanted[17]);
            assert(said[18] == wanted[18]);
            assert(said[19] == wanted[19]);
            assert(said[20] == wanted[20]);
            assert(said[21] == wanted[21]);
            assert(said[22] == wanted[22]);
            assert(said[23] == wanted[23]);
            assert(said[24] == wanted[24]);
            assert(said[25] == wanted[25]);
            assert(said[26] == wanted[26]);
            assert(said =~= wanted);
        }
        lines
    }

    /// The lines that offer the options to a tuner.
    #[verifier::rlimit(100)]
    pub fn spsa_workload(&self) -> (r: Vec<String>)
        ensures
            r.len() == OPTION_COUNT - 3,
            views(r@) == self.tuning_lines(),
    {
        let mut lines: Vec<String> = Vec::new();
        lines.push(self.qsearch_depth.fmt_spsa());
        lines.push(self.rfp_depth.fmt_spsa());
        lines.push(self.rfp_base_margin.fmt_spsa());
        lines.push(self.rfp_reduction_improving.fmt_spsa());
        lines.push(self.fp_base_margin.fmt_spsa());
        lines.push(self.fp_depth_margin.fmt_spsa());
        lines.push(self.fp_margin_depth_factor.fmt_spsa());
        lines.push(self.nmp_depth.fmt_spsa());
        lines.push(self.nmp_margin.fmt_spsa());
        lines.push(self.nmp_divisor.fmt_spsa());
        lines.push(self.nmp_divisor_improving.fmt_spsa());
        lines.push(self.lmp_move_margin.fmt_spsa());
        lines.push(self.lmp_depth_factor.fmt_spsa());
        lines.push(self.lmr_depth.fmt_spsa());
        lines.push(self.lmr_move_margin.fmt_spsa());
        lines.push(self.lmr_quiet_margin.fmt_spsa());
        lines.push(self.lmr_quiet_divisor.fmt_spsa());
        lines.push(self.lmr_base_margin.fmt_spsa());
        lines.push(self.lmr_base_divisor.fmt_spsa());
        lines.push(self.mo_tt_entry_value.fmt_spsa());
        lines.push(self.mo_capture_value.fmt_spsa());
        lines.push(self.mo_killer_value.fmt_spsa());
        lines.push(self.tc_time_divisor.fmt_spsa());
        lines.push(self.tc_elapsed_factor.fmt_spsa());
        proof {
            let said = views(lines@);
            let wanted = self.tuning_lines();
            assert(said.len() == wanted.len());
            assert(said[0] == wanted[0]);
            assert(said[1] == wanted[1]);
            assert(said[2] == wanted[2]);
            assert(said[3] == wanted[3]);
            assert(said[4] == wanted[4]);
            assert(said[5] == wanted[5]);
            assert(said[6] == wanted[6]);
            assert(said[7] == wanted[7]);
            assert(said[8] == wanted[8]);
            assert(said[9] == wanted[9]);
            assert(said[10] == wanted[10]);
            assert(said[11] == wanted[11]);
            assert(said[12] == wanted[12]);
            assert(said[13] == wanted[13]);
            assert(said[14] == wanted[14]);
            assert(said[15] == wanted[15]);
            assert(said[16] == wanted[16]);
            assert(said[17] == wanted[17]);
            assert(said[18] == wanted[18]);
            assert(said[19] == wanted[19]);
            assert(said[20] == wanted[20]);
            assert(said[21] == wanted[21]);
            assert(said[22] == wanted[22]);
            assert(said[23] == wanted[23]);
            assert(said =~= wanted);
        }
        lines
    }
}

} // verus!
