//! A verified pre-scan of a module's instruction stream.
//!
//! The reflection library's instruction decoder aborts on any opcode
//! outside its fixed table; its specialization-constant evaluator
//! divides, shifts, negates and multiplies with unchecked operands from
//! the module; and its access-chain resolution follows base references
//! without a cycle check, so a chain referring to itself or to a later
//! chain makes it loop forever. The scan walks the word stream and
//! rejects exactly those shapes (along with zero-length and truncated
//! instructions, which no well-formed module contains), so that the
//! reflection call is only ever made on inputs the library answers with
//! a result.

use vstd::prelude::*;

verus! {

/// Opcode of the specialization-constant computation instruction.
pub const OPCODE_SPEC_CONSTANT_OP: u32 = 52;

/// Opcode of the access-chain instruction (result id in its second
/// operand word, base id in its third).
pub const OPCODE_ACCESS_CHAIN: u32 = 65;

/// Whether the reflection library's instruction decoder knows the
/// opcode: the acceptance table of its bytecode instruction enumeration,
/// copied range for range.
pub open spec fn known_opcode(op: u32) -> bool {
    (op <= 8) || (10 <= op && op <= 12) || (14 <= op && op <= 17) || (19 <= op && op <= 39) || (41
        <= op && op <= 46) || (48 <= op && op <= 52) || (54 <= op && op <= 57) || (59 <= op && op
        <= 75) || (77 <= op && op <= 84) || (86 <= op && op <= 107) || (109 <= op && op <= 124) || (
    126 <= op && op <= 152) || (154 <= op && op <= 191) || (194 <= op && op <= 205) || (207 <= op
        && op <= 215) || (218 <= op && op <= 221) || (224 <= op && op <= 225) || (227 <= op && op
        <= 242) || (245 <= op && op <= 257) || (259 <= op && op <= 271) || (274 <= op && op <= 288)
        || (291 <= op && op <= 366) || (400 <= op && op <= 403) || (4160 <= op && op <= 4162) || (op
        == 4416) || (4421 <= op && op <= 4422) || (4428 <= op && op <= 4432) || (4445 <= op && op
        <= 4460) || (4472 <= op && op <= 4477) || (4479 <= op && op <= 4483) || (5000 <= op && op
        <= 5007) || (5011 <= op && op <= 5012) || (op == 5056) || (op == 5075) || (op == 5078) || (
    op == 5090) || (5249 <= op && op <= 5281) || (op == 5283) || (5294 <= op && op <= 5296) || (5299
        <= op && op <= 5301) || (5334 <= op && op <= 5341) || (op == 5344) || (5358 <= op && op
        <= 5362) || (5364 <= op && op <= 5365) || (5380 <= op && op <= 5381) || (5391 <= op && op
        <= 5397) || (5571 <= op && op <= 5578) || (5580 <= op && op <= 5581) || (5585 <= op && op
        <= 5598) || (5600 <= op && op <= 5601) || (5609 <= op && op <= 5611) || (5614 <= op && op
        <= 5615) || (5630 <= op && op <= 5633) || (5699 <= op && op <= 5816) || (5818 <= op && op
        <= 5820) || (5840 <= op && op <= 5843) || (5846 <= op && op <= 5882) || (op == 5887) || (
    5911 <= op && op <= 5913) || (5923 <= op && op <= 5934) || (op == 5938) || (5946 <= op && op
        <= 5947) || (op == 5949) || (6016 <= op && op <= 6032) || (op == 6035) || (op == 6086) || (
    6090 <= op && op <= 6092) || (6116 <= op && op <= 6117) || (6142 <= op && op <= 6143) || (6401
        <= op && op <= 6408)
}

/// Decides [`known_opcode`].
pub fn is_known_opcode(op: u32) -> (r: bool)
    ensures
        r == known_opcode(op),
{
    (op <= 8) || (10 <= op && op <= 12) || (14 <= op && op <= 17) || (19 <= op && op <= 39) || (41
        <= op && op <= 46) || (48 <= op && op <= 52) || (54 <= op && op <= 57) || (59 <= op && op
        <= 75) || (77 <= op && op <= 84) || (86 <= op && op <= 107) || (109 <= op && op <= 124) || (
    126 <= op && op <= 152) || (154 <= op && op <= 191) || (194 <= op && op <= 205) || (207 <= op
        && op <= 215) || (218 <= op && op <= 221) || (224 <= op && op <= 225) || (227 <= op && op
        <= 242) || (245 <= op && op <= 257) || (259 <= op && op <= 271) || (274 <= op && op <= 288)
        || (291 <= op && op <= 366) || (400 <= op && op <= 403) || (4160 <= op && op <= 4162) || (op
        == 4416) || (4421 <= op && op <= 4422) || (4428 <= op && op <= 4432) || (4445 <= op && op
        <= 4460) || (4472 <= op && op <= 4477) || (4479 <= op && op <= 4483) || (5000 <= op && op
        <= 5007) || (5011 <= op && op <= 5012) || (op == 5056) || (op == 5075) || (op == 5078) || (
    op == 5090) || (5249 <= op && op <= 5281) || (op == 5283) || (5294 <= op && op <= 5296) || (5299
        <= op && op <= 5301) || (5334 <= op && op <= 5341) || (op == 5344) || (5358 <= op && op
        <= 5362) || (5364 <= op && op <= 5365) || (5380 <= op && op <= 5381) || (5391 <= op && op
        <= 5397) || (5571 <= op && op <= 5578) || (5580 <= op && op <= 5581) || (5585 <= op && op
        <= 5598) || (5600 <= op && op <= 5601) || (5609 <= op && op <= 5611) || (5614 <= op && op
        <= 5615) || (5630 <= op && op <= 5633) || (5699 <= op && op <= 5816) || (5818 <= op && op
        <= 5820) || (5840 <= op && op <= 5843) || (5846 <= op && op <= 5882) || (op == 5887) || (
    5911 <= op && op <= 5913) || (5923 <= op && op <= 5934) || (op == 5938) || (5946 <= op && op
        <= 5947) || (op == 5949) || (6016 <= op && op <= 6032) || (op == 6035) || (op == 6086) || (
    6090 <= op && op <= 6092) || (6116 <= op && op <= 6117) || (6142 <= op && op <= 6143) || (6401
        <= op && op <= 6408)
}

/// Whether a specialization-constant sub-operation is one the evaluator
/// computes with unchecked arithmetic: signed negation (which fails on
/// the smallest 32-bit value), integer multiplication (whose 64-bit
/// product two unsigned 32-bit operands can exceed), the unsigned and
/// signed division, modulo and remainder operations (which divide by an
/// unchecked operand), and the three shift operations (whose shift
/// amount is unchecked).
pub open spec fn unchecked_spec_op(op: u32) -> bool {
    op == 126 || op == 132 || op == 134 || op == 135 || op == 137 || op == 138 || op == 139 || op
        == 194 || op == 195 || op == 196
}

/// Decides [`unchecked_spec_op`].
pub fn is_unchecked_spec_op(op: u32) -> (r: bool)
    ensures
        r == unchecked_spec_op(op),
{
    op == 126 || op == 132 || op == 134 || op == 135 || op == 137 || op == 138 || op == 139 || op
        == 194 || op == 195 || op == 196
}

/// The word at word index `i`, read in the module's byte order.
pub open spec fn word_at(bytes: Seq<u8>, i: int, little: bool) -> u32 {
    if little {
        (bytes[4 * i] + bytes[4 * i + 1] * 0x100 + bytes[4 * i + 2] * 0x10000 + bytes[4 * i + 3]
            * 0x1000000) as u32
    } else {
        (bytes[4 * i + 3] + bytes[4 * i + 2] * 0x100 + bytes[4 * i + 1] * 0x10000 + bytes[4 * i]
            * 0x1000000) as u32
    }
}

/// The whole byte sequence as module words.
pub open spec fn module_words(bytes: Seq<u8>, little: bool) -> Seq<u32> {
    Seq::new((bytes.len() / 4) as nat, |i: int| word_at(bytes, i, little))
}

/// Reads the word at word index `i` in the module's byte order.
fn read_word(data: &[u8], i: usize, little: bool) -> (r: u32)
    requires
        4 * i + 4 <= data@.len(),
    ensures
        r == word_at(data@, i as int, little),
{
    let n = data.len();
    proof {
        assert(4 * i + 4 <= n);
    }
    let b0 = *vstd::slice::slice_index_get(data, 4 * i) as u32;
    let b1 = *vstd::slice::slice_index_get(data, 4 * i + 1) as u32;
    let b2 = *vstd::slice::slice_index_get(data, 4 * i + 2) as u32;
    let b3 = *vstd::slice::slice_index_get(data, 4 * i + 3) as u32;
    if little {
        b0 + b1 * 0x100 + b2 * 0x10000 + b3 * 0x1000000
    } else {
        b3 + b2 * 0x100 + b1 * 0x10000 + b0 * 0x1000000
    }
}

/// The result ids of the access-chain instructions of a word stream, in
/// order; a malformed instruction ends the collection, as it ends the
/// stream for the scan.
pub open spec fn chain_results(words: Seq<u32>) -> Seq<u32>
    decreases words.len(),
{
    if words.len() == 0 {
        Seq::empty()
    } else {
        let head = words[0];
        let len = head >> 16u32;
        let op = head & 0xFFFF;
        if len == 0 || len as int > words.len() {
            Seq::empty()
        } else if op == OPCODE_ACCESS_CHAIN && len >= 4 {
            seq![words[2]] + chain_results(words.skip(len as int))
        } else {
            chain_results(words.skip(len as int))
        }
    }
}

/// Whether an instruction stream (the words after the five header words)
/// is one the reflection library answers with a result: every
/// instruction has a non-zero in-bounds length and a known opcode, no
/// access chain bases itself on its own result or on the result of a
/// later chain (so base references only run backward and resolving them
/// terminates), and no specialization-constant computation uses the
/// unchecked arithmetic operations.
pub open spec fn scan_ok(words: Seq<u32>) -> bool
    decreases words.len(),
{
    if words.len() == 0 {
        true
    } else {
        let head = words[0];
        let len = head >> 16u32;
        let op = head & 0xFFFF;
        if len == 0 {
            false
        } else if len as int > words.len() {
            false
        } else if !known_opcode(op) {
            false
        } else if op == OPCODE_ACCESS_CHAIN && len >= 4 && chain_results(words).contains(
            words[3],
        ) {
            false
        } else if op == OPCODE_SPEC_CONSTANT_OP && len >= 4 && unchecked_spec_op(words[3]) {
            false
        } else {
            scan_ok(words.skip(len as int))
        }
    }
}

/// Searches the word stream from word index `start` on for an
/// access-chain instruction whose result id is `base`, deciding the
/// membership test of [`scan_ok`]'s acyclicity condition.
fn has_chain_result(data: &[u8], little: bool, start: usize, base: u32) -> (r: bool)
    requires
        data@.len() % 4 == 0,
        data@.len() >= 20,
        5 <= start <= data@.len() / 4,
    ensures
        r == chain_results(module_words(data@, little).skip(start as int)).contains(base),
{
    let ghost words = module_words(data@, little);
    let total: usize = data.len() / 4;
    let mut p: usize = start;
    while p < total
        invariant
            start <= p <= total,
            total == data@.len() / 4,
            data@.len() % 4 == 0,
            data@.len() >= 20,
            words == module_words(data@, little),
            chain_results(words.skip(start as int)).contains(base) == chain_results(
                words.skip(p as int),
            ).contains(base),
        decreases total - p,
    {
        let head = read_word(data, p, little);
        proof {
            assert(words.skip(p as int)[0] == words[p as int]);
        }
        let len32: u32 = head >> 16u32;
        let op: u32 = head & 0xFFFF;
        if len32 == 0 {
            return false;
        }
        let len = len32 as usize;
        if len > total - p {
            return false;
        }
        if op == OPCODE_ACCESS_CHAIN && len >= 4 {
            let result = read_word(data, p + 2, little);
            proof {
                assert(words.skip(p as int)[2] == words[p as int + 2]);
            }
            if result == base {
                proof {
                    assert(chain_results(words.skip(p as int))[0] == base);
                }
                return true;
            }
            proof {
                assert(words.skip(p as int).skip(len as int) =~= words.skip(p as int + len as int));
                let s = chain_results(words.skip(p as int));
                let rest = chain_results(words.skip(p as int + len as int));
                assert(s == seq![result] + rest);
                assert(s.contains(base) == rest.contains(base)) by {
                    if s.contains(base) {
                        let k = choose|k: int| 0 <= k < s.len() && s[k] == base;
                        assert(k != 0);
                        assert(rest[k - 1] == base);
                        assert(rest.contains(base));
                    }
                    if rest.contains(base) {
                        let k = choose|k: int| 0 <= k < rest.len() && rest[k] == base;
                        assert(s[k + 1] == base);
                        assert(s.contains(base));
                    }
                }
            }
        } else {
            proof {
                assert(words.skip(p as int).skip(len as int) =~= words.skip(p as int + len as int));
            }
        }
        p += len;
    }
    proof {
        assert(words.skip(p as int) =~= Seq::<u32>::empty());
        assert(!chain_results(words.skip(p as int)).contains(base));
    }
    false
}

/// Scans a module's instruction stream, deciding [`scan_ok`] over the
/// words after the header.
pub fn scan_stream(data: &[u8], little: bool) -> (r: bool)
    requires
        data@.len() % 4 == 0,
        data@.len() >= 20,
    ensures
        r == scan_ok(module_words(data@, little).skip(5)),
{
    let ghost words = module_words(data@, little);
    let total: usize = data.len() / 4;
    let mut i: usize = 5;
    while i < total
        invariant
            5 <= i <= total,
            total == data@.len() / 4,
            data@.len() % 4 == 0,
            data@.len() >= 20,
            words == module_words(data@, little),
            scan_ok(words.skip(5)) == scan_ok(words.skip(i as int)),
        decreases total - i,
    {
        let head = read_word(data, i, little);
        proof {
            assert(words.skip(i as int)[0] == words[i as int]);
        }
        let len32: u32 = head >> 16u32;
        let op: u32 = head & 0xFFFF;
        if len32 == 0 {
            return false;
        }
        let len = len32 as usize;
        if len > total - i {
            return false;
        }
        if !is_known_opcode(op) {
            return false;
        }
        if op == OPCODE_ACCESS_CHAIN && len >= 4 {
            let chain_base = read_word(data, i + 3, little);
            proof {
                assert(words.skip(i as int)[3] == words[i as int + 3]);
            }
            if has_chain_result(data, little, i, chain_base) {
                return false;
            }
        }
        if op == OPCODE_SPEC_CONSTANT_OP && len >= 4 {
            let sub = read_word(data, i + 3, little);
            proof {
                assert(words.skip(i as int)[3] == words[i as int + 3]);
            }
            if is_unchecked_spec_op(sub) {
                return false;
            }
        }
        proof {
            assert(words.skip(i as int).skip(len as int) =~= words.skip(i as int + len as int));
        }
        i += len;
    }
    proof {
        assert(words.skip(i as int) =~= Seq::<u32>::empty());
    }
    true
}

} // verus!
