//! The opcode table: a compact list of pattern rules, one per instruction
//! variant, and the expansion of that list into a dispatch table with one
//! entry for each of the 65536 possible opcode words.

use vstd::prelude::*;

verus! {

/// Operand size of an instruction variant.
#[derive(Copy, Clone, Debug, Hash, Eq, PartialEq, Structural)]
pub enum Size {
    Byte,
    Word,
    Long,
    Unsized,
}

/// How the disassembler treats opcodes mapped to a descriptor: decode them,
/// decode them knowing the low byte is a short branch displacement, or refuse
/// them (patterns kept only to pin table slots to the illegal handler).
#[derive(Copy, Clone, Debug, Hash, Eq, PartialEq, Structural)]
pub enum Validator {
    Always,
    ValidByteDisplacement,
    Never,
}

/// Which operand decoder reconstructs the operands of a descriptor's opcodes.
#[derive(Copy, Clone, Debug, Hash, Eq, PartialEq, Structural)]
pub enum Decoder {
    /// source effective address, then data register from bits 9-11
    EaDx,
    /// data register from bits 9-11, then effective address
    DxEa,
    /// source effective address, then address register from bits 9-11
    EaAx,
    /// source effective address, then destination effective address
    EaEa,
    /// immediate of the descriptor size, then effective address
    ImmEa,
    /// effective address alone
    Ea,
    /// source effective address, then the status register
    EaSr,
    /// the status register, then an effective address
    SrEa,
    /// source effective address, then the condition-code register
    EaCcr,
    /// immediate byte, then the condition-code register
    ImmCcr,
    /// immediate word, then the status register
    ImmSr,
    /// branch displacement: low byte, or an extension word when it is zero
    Branch,
    /// quick immediate from bits 9-11 (zero meaning eight), then effective address
    QuickEa,
    /// immediate from the low byte, then data register from bits 9-11
    Moveq,
    /// data register pair, bits 0-2 then 9-11
    DyDx,
    /// predecremented address register pair, bits 0-2 then 9-11
    PdPd,
    /// postincremented address register pair, bits 0-2 then 9-11
    PiPi,
    /// data register from bits 0-2, then a word branch displacement
    DnDisp,
    /// data register pair for an exchange, bits 9-11 then 0-2
    ExgDd,
    /// address register pair for an exchange, bits 9-11 then 0-2
    ExgAa,
    /// data register from bits 9-11, then address register from bits 0-2
    ExgDa,
    /// data register from bits 0-2 alone
    DnOnly,
    /// address register from bits 0-2 alone
    AnOnly,
    /// address register from bits 0-2, then an immediate word
    LinkImm,
    /// register-list word, then effective address (registers to memory)
    MovemRe,
    /// effective address, then register-list word (memory to registers)
    MovemEr,
    /// displaced address register, then data register (peripheral to register)
    MovepEr,
    /// data register, then displaced address register (register to peripheral)
    MovepRe,
    /// address register from bits 0-2, then the user stack pointer
    AnUsp,
    /// the user stack pointer, then address register from bits 0-2
    UspAn,
    /// shift count from bits 9-11 (zero meaning eight), then data register
    ShiftImm,
    /// count data register from bits 9-11, then data register from bits 0-2
    ShiftReg,
    /// bit-number word, then effective address
    BitImm,
    /// trap vector from the low nibble
    Vector,
    /// immediate extension word alone
    Imm16,
    /// no operands
    NoOperands,
}

/// One opcode-pattern rule: every opcode word that equals `matching` on the
/// bits selected by `mask` belongs to this instruction variant. The rest of
/// the fields describe the variant: its handler name, mnemonic, operand size,
/// operand decoder, and how the disassembler treats it.
#[derive(Copy, Clone, Debug)]
pub struct OpcodeHandler {
    pub mask: u32,
    pub matching: u32,
    pub name: &'static str,
    pub mnemonic: &'static str,
    pub size: Size,
    pub decoder: Decoder,
    pub validator: Validator,
}

/// Both pattern words fit in 16 bits and `matching` has no bit outside the
/// mask, so the rule can match at all.
pub open spec fn rule_wf(r: OpcodeHandler) -> bool {
    &&& r.mask <= 0xffff
    &&& r.matching <= 0xffff
    &&& r.mask & r.matching == r.matching
}

/// Whether an opcode word belongs to a rule.
pub open spec fn rule_matches(r: OpcodeHandler, opcode: u16) -> bool {
    (opcode as u32) & r.mask == r.matching
}

/// The index of the rule that the finished dispatch table assigns to an
/// opcode over the first `n` rules: the last rule that matches, because later
/// rules overwrite earlier ones; `rules.len()` when none matches, standing
/// for the illegal-instruction handler.
pub open spec fn lookup_prefix(rules: Seq<OpcodeHandler>, opcode: u16, n: int) -> int
    decreases n,
{
    if n <= 0 {
        rules.len() as int
    } else if rule_matches(rules[n - 1], opcode) {
        n - 1
    } else {
        lookup_prefix(rules, opcode, n - 1)
    }
}

/// The index of the rule the dispatch table assigns to an opcode, or
/// `rules.len()` for an unmapped (illegal) opcode.
pub open spec fn lookup(rules: Seq<OpcodeHandler>, opcode: u16) -> int {
    lookup_prefix(rules, opcode, rules.len() as int)
}

proof fn lemma_lookup_prefix_character(rules: Seq<OpcodeHandler>, opcode: u16, n: int)
    requires
        0 <= n <= rules.len(),
    ensures
        lookup_prefix(rules, opcode, n) == rules.len() || (0 <= lookup_prefix(rules, opcode, n)
            < n),
        lookup_prefix(rules, opcode, n) < n ==> rule_matches(
            rules[lookup_prefix(rules, opcode, n)],
            opcode,
        ),
        forall|j: int|
            lookup_prefix(rules, opcode, n) < j < n && j < rules.len() ==> !rule_matches(
                #[trigger] rules[j],
                opcode,
            ),
        lookup_prefix(rules, opcode, n) == rules.len() ==> forall|j: int|
            0 <= j < n ==> !rule_matches(#[trigger] rules[j], opcode),
    decreases n,
{
    if n > 0 {
        lemma_lookup_prefix_character(rules, opcode, n - 1);
    }
}

/// Every opcode word is governed by exactly one dispatch-table entry. The
/// entry is the index of the last rule that matches the opcode; when no rule
/// matches, it is the rule count, which stands for the illegal-instruction
/// handler.
pub proof fn lemma_every_opcode_has_one_entry(rules: Seq<OpcodeHandler>, opcode: u16)
    ensures
        0 <= lookup(rules, opcode) <= rules.len(),
        lookup(rules, opcode) < rules.len() ==> rule_matches(rules[lookup(rules, opcode)], opcode),
        forall|j: int|
            lookup(rules, opcode) < j < rules.len() ==> !rule_matches(#[trigger] rules[j], opcode),
        lookup(rules, opcode) == rules.len() ==> forall|j: int|
            0 <= j < rules.len() ==> !rule_matches(#[trigger] rules[j], opcode),
{
    lemma_lookup_prefix_character(rules, opcode, rules.len() as int);
}

/// Pattern mask leaving the X register field (bits 9-11) free.
pub const MASK_OUT_X: u32 = 0b1111_0001_1111_1111;

/// Pattern mask leaving the X (bits 9-11) and Y (bits 0-2) register fields free.
pub const MASK_OUT_X_Y: u32 = 0b1111_0001_1111_1000;

/// Pattern mask leaving the Y register field (bits 0-2) free.
pub const MASK_OUT_Y: u32 = 0b1111_1111_1111_1000;

/// Pattern mask leaving nothing free: the rule names a single opcode.
pub const MASK_EXACT: u32 = 0b1111_1111_1111_1111;

/// Pattern mask leaving the low byte free.
pub const MASK_LOBYTE: u32 = 0b1111_1111_0000_0000;

/// Pattern mask leaving the low byte and the X register field free.
pub const MASK_LOBYTX: u32 = 0b1111_0001_0000_0000;

/// Pattern mask leaving the low three nibbles free.
pub const MASK_LO3NIB: u32 = 0b1111_0000_0000_0000;

/// Pattern mask leaving the low nibble free.
pub const MASK_LONIB: u32 = 0b1111_1111_1111_0000;

/// The three masks whose free bits are not contiguous: they all free the X
/// register field plus some run of low bits, so their matches can be emitted
/// as eight rows of consecutive opcodes.
pub open spec fn x_family_mask(m: u32) -> bool {
    m == MASK_OUT_X || m == MASK_OUT_X_Y || m == MASK_LOBYTX
}

/// Every opcode matching an X-family rule decomposes into the matching bits,
/// an X row selected by bits 9-11, and an offset in the row's run of free low
/// bits.
proof fn lemma_x_family_decompose(m: u32, v: u32, op: u32)
    by (bit_vector)
    requires
        m == 0xf1ffu32 || m == 0xf1f8u32 || m == 0xf100u32,
        m & v == v,
        v <= 0xffff,
        op <= 0xffff,
        op & m == v,
    ensures
        op == v + (((op >> 9) & 7) << 9) + (op & (!m & 0x1ff)),
        (op >> 9) & 7 < 8,
        op & (!m & 0x1ff) <= (!m & 0x1ff),
{
}

/// Conversely, every row/offset pair below the rule's bounds yields an opcode
/// that matches the rule, and its decomposition recovers the pair.
proof fn lemma_x_family_member(m: u32, v: u32, x: u32, j: u32)
    by (bit_vector)
    requires
        m == 0xf1ffu32 || m == 0xf1f8u32 || m == 0xf100u32,
        m & v == v,
        v <= 0xffff,
        x < 8,
        j <= (!m & 0x1ff),
    ensures
        v + (x << 9) + j <= 0xffff,
        ((v + (x << 9) + j) as u32) & m == v,
        (((v + (x << 9) + j) as u32) >> 9) & 7 == x,
        ((v + (x << 9) + j) as u32) & (!m & 0x1ff) == j,
{
}

/// For any other mask the matches all lie between the matching bits
/// themselves and the matching bits with every free bit set, so a single scan
/// of that range finds them all.
proof fn lemma_match_bounds(m: u32, v: u32, op: u32)
    by (bit_vector)
    requires
        m & v == v,
        v <= 0xffff,
        m <= 0xffff,
        op <= 0xffff,
        op & m == v,
    ensures
        v <= op,
        op <= (v | (!m & 0xffff)),
        (v | (!m & 0xffff)) <= 0xffff,
{
}

/// Expand a rule list into the dispatch table: entry `op` holds the index of
/// the rule that governs opcode `op`, or `rules.len()` when no rule matches
/// and the opcode is illegal. Later rules overwrite earlier ones, so each
/// entry is the last match. Construction walks the rule list once; each rule
/// touches only the entries it can match.
pub fn build_index(rules: &Vec<OpcodeHandler>) -> (table: Vec<usize>)
    requires
        forall|i: int| 0 <= i < rules@.len() ==> rule_wf(#[trigger] rules@[i]),
    ensures
        table@.len() == 0x10000,
        forall|op: u16| #[trigger] table@[op as int] as int == lookup(rules@, op),
{
    let n = rules.len();
    let mut table: Vec<usize> = Vec::with_capacity(0x10000);
    while table.len() < 0x10000
        invariant
            table@.len() <= 0x10000,
            forall|i: int| 0 <= i < table@.len() ==> #[trigger] table@[i] as int == rules@.len(),
            n == rules@.len(),
        decreases 0x10000 - table@.len(),
    {
        table.push(n);
    }
    assert forall|op: u16| #[trigger] table@[op as int] as int == lookup_prefix(
        rules@,
        op,
        0,
    ) by {}
    let mut k: usize = 0;
    while k < n
        invariant
            n == rules@.len(),
            k <= n,
            forall|i: int| 0 <= i < rules@.len() ==> rule_wf(#[trigger] rules@[i]),
            table@.len() == 0x10000,
            forall|op: u16| #[trigger] table@[op as int] as int == lookup_prefix(
                rules@,
                op,
                k as int,
            ),
        decreases n - k,
    {
        let rule = rules[k];
        let ghost rules_seq = rules@;
        let v = rule.matching;
        let m = rule.mask;
        if m == MASK_OUT_X || m == MASK_OUT_X_Y || m == MASK_LOBYTX {
            let lowmask = !m & 0x1ff;
            let mut x: u32 = 0;
            while x < 8
                invariant
                    n == rules_seq.len(),
                    rules@ == rules_seq,
                    k < n,
                    rule == rules_seq[k as int],
                    rule_wf(rule),
                    m == rule.mask,
                    v == rule.matching,
                    x_family_mask(m),
                    lowmask == !m & 0x1ff,
                    x <= 8,
                    table@.len() == 0x10000,
                    forall|op: u16|
                        #[trigger] table@[op as int] as int == (if rule_matches(rule, op) && ((
                        op as u32 >> 9) & 7) < x {
                            k as int
                        } else {
                            lookup_prefix(rules_seq, op, k as int)
                        }),
                decreases 8 - x,
            {
                let mut j: u32 = 0;
                while j <= lowmask
                    invariant
                        n == rules_seq.len(),
                        rules@ == rules_seq,
                        k < n,
                        rule == rules_seq[k as int],
                        rule_wf(rule),
                        m == rule.mask,
                        v == rule.matching,
                        x_family_mask(m),
                        lowmask == !m & 0x1ff,
                        x < 8,
                        j <= lowmask + 1,
                        table@.len() == 0x10000,
                        forall|op: u16|
                            #[trigger] table@[op as int] as int == (if rule_matches(rule, op) && (((
                            op as u32 >> 9) & 7) < x || (((op as u32 >> 9) & 7) == x && (op as u32
                                & lowmask) < j)) {
                                k as int
                            } else {
                                lookup_prefix(rules_seq, op, k as int)
                            }),
                    decreases lowmask + 1 - j,
                {
                    proof {
                        lemma_x_family_member(m, v, x, j);
                    }
                    let op = v + (x << 9u32) + j;
                    table.set(op as usize, k);
                    assert forall|o: u16|
                        #[trigger] table@[o as int] as int == (if rule_matches(rule, o) && (((
                        o as u32 >> 9) & 7) < x || (((o as u32 >> 9) & 7) == x && (o as u32
                            & lowmask) < j + 1)) {
                            k as int
                        } else {
                            lookup_prefix(rules_seq, o, k as int)
                        }) by {
                        if o as u32 == op {
                            assert(rule_matches(rule, o));
                        } else {
                            if rule_matches(rule, o) && ((o as u32 >> 9) & 7) == x && (o as u32
                                & lowmask) == j {
                                lemma_x_family_decompose(m, v, o as u32);
                            }
                        }
                    }
                    j = j + 1;
                }
                assert forall|o: u16|
                    #[trigger] table@[o as int] as int == (if rule_matches(rule, o) && ((o as u32
                        >> 9) & 7) < x + 1 {
                        k as int
                    } else {
                        lookup_prefix(rules_seq, o, k as int)
                    }) by {
                    if rule_matches(rule, o) && ((o as u32 >> 9) & 7) == x {
                        lemma_x_family_decompose(m, v, o as u32);
                    }
                }
                x = x + 1;
            }
            assert forall|o: u16|
                #[trigger] table@[o as int] as int == (if rule_matches(rule, o) {
                    k as int
                } else {
                    lookup_prefix(rules_seq, o, k as int)
                }) by {
                if rule_matches(rule, o) {
                    lemma_x_family_decompose(m, v, o as u32);
                }
            }
        } else {
            let top = v | (!m & 0xffff);
            assert(top <= 0xffff && v <= top) by (bit_vector)
                requires
                    v <= 0xffff,
                    top == v | (!m & 0xffff),
            ;
            assert forall|op: u16| rule_matches(rule, op) implies (op as u32) >= v by {
                lemma_match_bounds(m, v, op as u32);
            }
            let mut cur: u32 = v;
            while cur <= top
                invariant
                    n == rules_seq.len(),
                    rules@ == rules_seq,
                    k < n,
                    rule == rules_seq[k as int],
                    rule_wf(rule),
                    m == rule.mask,
                    v == rule.matching,
                    top == v | (!m & 0xffff),
                    top <= 0xffff,
                    v <= cur <= top + 1,
                    table@.len() == 0x10000,
                    forall|op: u16|
                        #[trigger] table@[op as int] as int == (if rule_matches(rule, op) && (
                        op as u32) < cur {
                            k as int
                        } else {
                            lookup_prefix(rules_seq, op, k as int)
                        }),
                decreases top + 1 - cur,
            {
                if cur & m == v {
                    table.set(cur as usize, k);
                }
                cur = cur + 1;
            }
            assert forall|o: u16|
                #[trigger] table@[o as int] as int == (if rule_matches(rule, o) {
                    k as int
                } else {
                    lookup_prefix(rules_seq, o, k as int)
                }) by {
                if rule_matches(rule, o) {
                    lemma_match_bounds(m, v, o as u32);
                }
            }
        }
        assert forall|o: u16| #[trigger] table@[o as int] as int == lookup_prefix(
            rules_seq,
            o,
            k + 1,
        ) by {
            assert(lookup_prefix(rules_seq, o, k + 1) == (if rule_matches(rules_seq[k as int], o) {
                k as int
            } else {
                lookup_prefix(rules_seq, o, k as int)
            }));
        }
        k = k + 1;
    }
    table
}

/// Masking a value twice changes nothing, and a masked value never exceeds
/// the mask.
proof fn lemma_mask_projection(m: u32, v: u32)
    by (bit_vector)
    ensures
        m & (m & v) == m & v,
        m & v <= m,
{
}

/// Whether a decoder reads the effective-address field in the low six bits.
pub open spec fn decoder_reads_ea(d: Decoder) -> bool {
    match d {
        Decoder::EaDx => true,
        Decoder::DxEa => true,
        Decoder::EaAx => true,
        Decoder::EaEa => true,
        Decoder::ImmEa => true,
        Decoder::Ea => true,
        Decoder::EaSr => true,
        Decoder::SrEa => true,
        Decoder::EaCcr => true,
        Decoder::QuickEa => true,
        Decoder::BitImm => true,
        Decoder::MovemRe => true,
        Decoder::MovemEr => true,
        _ => false,
    }
}

/// Whether a rule's pattern pins its operand fields firmly enough for its
/// decoder: wherever the decoder reads an effective-address field, the
/// pattern pins the mode bits, and a pattern naming the extension modes
/// (mode 7) also pins the register bits to a real addressing mode. An
/// immediate of the rule's size needs that size definite.
pub open spec fn spec_decoder_shape_ok(mask: u32, matching: u32, size: Size, d: Decoder) -> bool {
    let vm = matching as u16;
    &&& (decoder_reads_ea(d) ==> mask & 0x38 == 0x38 && ((vm >> 3) & 0b111 < 7 || (mask & 0b111
        == 0b111 && (vm & 0b111 <= 3 || (vm & 0b111 == 4 && !(size is Unsized))))))
    &&& (d is EaEa ==> mask & 0x1c0 == 0x1c0 && ((vm >> 6) & 0b111 < 7 || (mask & 0xe00 == 0xe00
        && (vm >> 9) & 0b111 <= 1)))
    &&& (d is ImmEa ==> !(size is Unsized))
}

/// A rule the disassembler can act on without reading past its pattern:
/// either it never disassembles, or its pattern satisfies the decoder's
/// shape conditions.
pub open spec fn rule_decodable(r: OpcodeHandler) -> bool {
    r.validator is Never || spec_decoder_shape_ok(r.mask, r.matching, r.size, r.decoder)
}

/// The rule `op_entry` builds: the matching bits projected onto the mask,
/// and the validator demoted to `Never` for a pattern whose operands its
/// decoder could not read.
pub open spec fn spec_op_entry(
    mask: u32,
    matching: u32,
    name: &'static str,
    mnemonic: &'static str,
    size: Size,
    decoder: Decoder,
    validator: Validator,
) -> OpcodeHandler {
    let projected = mask & matching;
    OpcodeHandler {
        mask,
        matching: projected,
        name,
        mnemonic,
        size,
        decoder,
        validator: if spec_decoder_shape_ok(mask, projected, size, decoder) {
            validator
        } else {
            Validator::Never
        },
    }
}

fn decoder_reads_ea_exec(d: Decoder) -> (r: bool)
    ensures
        r == decoder_reads_ea(d),
{
    match d {
        Decoder::EaDx => true,
        Decoder::DxEa => true,
        Decoder::EaAx => true,
        Decoder::EaEa => true,
        Decoder::ImmEa => true,
        Decoder::Ea => true,
        Decoder::EaSr => true,
        Decoder::SrEa => true,
        Decoder::EaCcr => true,
        Decoder::QuickEa => true,
        Decoder::BitImm => true,
        Decoder::MovemRe => true,
        Decoder::MovemEr => true,
        _ => false,
    }
}

/// Build one opcode-pattern rule. The matching bits are projected onto the
/// mask, which is what makes every rule well-formed: a matching word with a
/// bit outside its mask could never equal a masked opcode. A pattern whose
/// operand fields its decoder could not read is never offered for
/// disassembly; the patterns in this crate all pass that check, which the
/// contract records.
pub fn op_entry(
    mask: u32,
    matching: u32,
    name: &'static str,
    mnemonic: &'static str,
    size: Size,
    decoder: Decoder,
    validator: Validator,
) -> (r: OpcodeHandler)
    requires
        mask <= 0xffff,
    ensures
        rule_wf(r),
        rule_decodable(r),
        r == spec_op_entry(mask, matching, name, mnemonic, size, decoder, validator),
{
    proof {
        lemma_mask_projection(mask, matching);
    }
    let projected = mask & matching;
    let vm = projected as u16;
    let ea_ok = if decoder_reads_ea_exec(decoder) {
        mask & 0x38 == 0x38 && ((vm >> 3u16) & 0b111 < 7 || (mask & 0b111 == 0b111 && (vm & 0b111
            <= 3 || (vm & 0b111 == 4 && !matches!(size, Size::Unsized)))))
    } else {
        true
    };
    let dest_ok = if matches!(decoder, Decoder::EaEa) {
        mask & 0x1c0 == 0x1c0 && ((vm >> 6u16) & 0b111 < 7 || (mask & 0xe00 == 0xe00 && (vm
            >> 9u16) & 0b111 <= 1))
    } else {
        true
    };
    let imm_ok = if matches!(decoder, Decoder::ImmEa) {
        !matches!(size, Size::Unsized)
    } else {
        true
    };
    let checked = if ea_ok && dest_ok && imm_ok {
        validator
    } else {
        Validator::Never
    };
    OpcodeHandler { mask, matching: projected, name, mnemonic, size, decoder, validator: checked }
}

/// Holds the rule list and expands it into per-opcode tables on demand.
pub struct InstructionSetGenerator {
    optable: Vec<OpcodeHandler>,
}

impl InstructionSetGenerator {
    /// The rule list this generator expands.
    pub closed spec fn rules(&self) -> Seq<OpcodeHandler> {
        self.optable@
    }

    /// Every rule of the list is well-formed and decodable, and the list is
    /// not empty.
    pub open spec fn wf(&self) -> bool {
        &&& self.rules().len() > 0
        &&& forall|i: int|
            0 <= i < self.rules().len() ==> rule_wf(#[trigger] self.rules()[i]) && rule_decodable(
                self.rules()[i],
            )
    }

    pub fn new() -> (r: Self)
        ensures
            r.wf(),
            r.rules() == crate::handlers::spec_optable(),
    {
        InstructionSetGenerator { optable: crate::handlers::generate_optable() }
    }

    /// Read-only access to the rule list, shared by the executor table and
    /// the disassembler.
    pub fn optable(&self) -> (r: &Vec<OpcodeHandler>)
        ensures
            r@ == self.rules(),
    {
        &self.optable
    }

    /// The dispatch table: for each of the 65536 opcode words, the index of
    /// its rule, or the rule count for an opcode no rule matches (the
    /// illegal-instruction handler).
    pub fn generate(&self) -> (table: Vec<usize>)
        requires
            self.wf(),
        ensures
            table@.len() == 0x10000,
            forall|op: u16| #[trigger] table@[op as int] as int == lookup(self.rules(), op),
    {
        build_index(&self.optable)
    }

    /// The dispatch table mapped through `with`: entry `op` holds `with`
    /// applied to the rule governing opcode `op`, or `def` where no rule
    /// matches.
    pub fn generate_with<F: Clone, G: Fn(&OpcodeHandler) -> F>(&self, def: F, with: G) -> (r: Vec<
        F,
    >)
        requires
            self.wf(),
            forall|h: &OpcodeHandler| #[trigger] call_requires(with, (h,)),
        ensures
            r@.len() == 0x10000,
            forall|op: u16|
                #![trigger r@[op as int]]
                {
                    let j = lookup(self.rules(), op);
                    if j < self.rules().len() {
                        call_ensures(with, (&self.rules()[j],), r@[op as int])
                    } else {
                        cloned(def, r@[op as int])
                    }
                },
    {
        let table = self.generate();
        let mut r: Vec<F> = Vec::with_capacity(0x10000);
        let mut i: usize = 0;
        while i < 0x10000
            invariant
                self.wf(),
                forall|h: &OpcodeHandler| #[trigger] call_requires(with, (h,)),
                table@.len() == 0x10000,
                forall|op: u16| #[trigger] table@[op as int] as int == lookup(self.rules(), op),
                i <= 0x10000,
                r@.len() == i,
                forall|op: u16|
                    #![trigger r@[op as int]]
                    op < i ==> {
                        let j = lookup(self.rules(), op);
                        if j < self.rules().len() {
                            call_ensures(with, (&self.rules()[j],), r@[op as int])
                        } else {
                            cloned(def, r@[op as int])
                        }
                    },
            decreases 0x10000 - i,
        {
            let j = table[i];
            assert(j as int == lookup(self.rules(), i as u16));
            if j < self.optable.len() {
                r.push(with(&self.optable[j]));
            } else {
                r.push(def.clone());
            }
            i = i + 1;
        }
        r
    }
}

} // verus!
