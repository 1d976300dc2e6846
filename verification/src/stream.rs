//! The word stream of a module, and what of it the parser can be handed.
//!
//! The parser that decodes a module aborts on some streams, mostly where a decoration
//! or a name refers to what the module lacks. Layouts depend on no decoration, so the
//! decoder blanks the decorations out and hands the parser what is left, once that is
//! seen to hold nothing that the parser aborts on.

use vstd::prelude::*;

verus! {

/// The words before the first instruction: magic number, version, generator, bound
/// and schema.
pub const HEADER_WORDS: usize = 5;

/// The first word of every module.
pub const MAGIC: u32 = 0x0723_0203;

/// The instruction that does nothing, one word long.
pub const NOP: u32 = 0x0001_0000;

/// The opcode of the name of a member.
pub const OP_MEMBER_NAME: u32 = 6;

/// The opcode of the declaration of the memory model.
pub const OP_MEMORY_MODEL: u32 = 14;

/// The opcode of an aggregate type.
pub const OP_TYPE_STRUCT: u32 = 30;

/// The opcode that opens a function body.
pub const OP_FUNCTION: u32 = 54;

/// The opcode that closes a function body.
pub const OP_FUNCTION_END: u32 = 56;

/// The number of words of the instruction that `word` opens: its high half.
pub open spec fn word_count(word: u32) -> nat {
    (word / 65536) as nat
}

/// The opcode of the instruction that `word` opens: its low half.
pub open spec fn opcode(word: u32) -> u32 {
    (word % 65536) as u32
}

/// Whether `op` decorates an id or a member, or gathers or applies such decorations.
pub open spec fn is_decoration(op: u32) -> bool {
    71 <= op <= 75 || op == 332 || op == 5632 || op == 5633
}

/// An instruction starts at `at` and ends within the stream.
pub open spec fn framed_at(words: Seq<u32>, at: int) -> bool {
    &&& 0 <= at < words.len()
    &&& 1 <= word_count(words[at])
    &&& at + word_count(words[at]) <= words.len()
}

/// The number of members of the first aggregate type at or after `from` that assigns
/// the id `ty`.
pub open spec fn member_count(words: Seq<u32>, ty: u32, from: int) -> Option<nat>
    decreases words.len() - from,
{
    if !framed_at(words, from) {
        None
    } else if opcode(words[from]) == OP_TYPE_STRUCT && word_count(words[from]) >= 2 && words[from
        + 1] == ty {
        Some((word_count(words[from]) - 2) as nat)
    } else {
        member_count(words, ty, from + word_count(words[from]))
    }
}

/// The member-name instruction at `at`, which has its two operands, names a member
/// that an aggregate type of the stream has.
pub open spec fn names_member(words: Seq<u32>, at: int) -> bool {
    match member_count(words, words[at + 1], HEADER_WORDS as int) {
        Some(count) => words[at + 2] < count,
        None => false,
    }
}

/// Whether the instruction at `at` is left out before the stream is parsed: every
/// decoration, and every member name, complete with a text, that names no member.
pub open spec fn dropped_at(words: Seq<u32>, at: int) -> bool {
    is_decoration(opcode(words[at])) || (opcode(words[at]) == OP_MEMBER_NAME && word_count(
        words[at],
    ) >= 4 && !names_member(words, at))
}

/// The words from `from` on, with each dropped instruction overwritten by no-ops.
/// Where the stream stops being framed, the rest is kept as it is.
pub open spec fn blanked_from(words: Seq<u32>, from: int) -> Seq<u32>
    decreases words.len() - from,
{
    if from < 0 || from >= words.len() {
        Seq::empty()
    } else if !framed_at(words, from) {
        words.subrange(from, words.len() as int)
    } else {
        let next = from + word_count(words[from]);
        let kept = if dropped_at(words, from) {
            Seq::new(word_count(words[from]), |k: int| NOP)
        } else {
            words.subrange(from, next)
        };
        kept + blanked_from(words, next)
    }
}

/// The module `words` with its dropped instructions overwritten by no-ops. Layouts do
/// not depend on what is dropped. What is shorter than a header is left as it is.
pub open spec fn blanked(words: Seq<u32>) -> Seq<u32> {
    if words.len() < HEADER_WORDS {
        words
    } else {
        words.subrange(0, HEADER_WORDS as int) + blanked_from(words, HEADER_WORDS as int)
    }
}

/// Whether the stream is inside a function body after an instruction of opcode `op`.
pub open spec fn entered(op: u32, in_function: bool) -> bool {
    if op == OP_FUNCTION {
        true
    } else if op == OP_FUNCTION_END {
        false
    } else {
        in_function
    }
}

/// The framed instruction at `at` can be handed to the parser: it is no decoration,
/// neither of its first two operands is the largest id, it ends a function only
/// inside one, and if it is a member name with a text, the member exists.
pub open spec fn admissible_at(words: Seq<u32>, at: int, in_function: bool) -> bool {
    let count = word_count(words[at]);
    let op = opcode(words[at]);
    &&& !is_decoration(op)
    &&& (count >= 2 ==> words[at + 1] != u32::MAX)
    &&& (count >= 3 ==> words[at + 2] != u32::MAX)
    &&& (op == OP_FUNCTION_END ==> in_function)
    &&& (op == OP_MEMBER_NAME && count >= 4 ==> names_member(words, at))
}

/// Every instruction from `from` on is framed and admissible.
pub open spec fn admissible_from(words: Seq<u32>, from: int, in_function: bool) -> bool
    decreases words.len() - from,
{
    if from >= words.len() {
        true
    } else if !framed_at(words, from) || !admissible_at(words, from, in_function) {
        false
    } else {
        admissible_from(
            words,
            from + word_count(words[from]),
            entered(opcode(words[from]), in_function),
        )
    }
}

/// A memory model is declared at or after `from`, outside every function body.
pub open spec fn has_memory_model(words: Seq<u32>, from: int, in_function: bool) -> bool
    decreases words.len() - from,
{
    if !framed_at(words, from) {
        false
    } else if opcode(words[from]) == OP_MEMORY_MODEL && !in_function {
        true
    } else {
        has_memory_model(
            words,
            from + word_count(words[from]),
            entered(opcode(words[from]), in_function),
        )
    }
}

/// The module can be handed to the parser: it has a header, its instructions are
/// framed and admissible, and it declares a memory model.
pub open spec fn well_guarded(words: Seq<u32>) -> bool {
    &&& words.len() >= HEADER_WORDS
    &&& admissible_from(words, HEADER_WORDS as int, false)
    &&& has_memory_model(words, HEADER_WORDS as int, false)
}

/// The framed instruction at `at` is dropped, or it can be handed to the parser:
/// neither of its first two operands is the largest id, and it ends a function only
/// inside one.
pub open spec fn presentable_at(words: Seq<u32>, at: int, in_function: bool) -> bool {
    let count = word_count(words[at]);
    let op = opcode(words[at]);
    dropped_at(words, at) || {
        &&& (count >= 2 ==> words[at + 1] != u32::MAX)
        &&& (count >= 3 ==> words[at + 2] != u32::MAX)
        &&& (op == OP_FUNCTION_END ==> in_function)
    }
}

/// Every instruction from `from` on is framed and presentable.
pub open spec fn presentable_from(words: Seq<u32>, from: int, in_function: bool) -> bool
    decreases words.len() - from,
{
    if from >= words.len() {
        true
    } else if !framed_at(words, from) || !presentable_at(words, from, in_function) {
        false
    } else {
        presentable_from(
            words,
            from + word_count(words[from]),
            entered(opcode(words[from]), in_function),
        )
    }
}

/// The module has a header and declares a memory model, and its instructions are
/// framed to the last word and presentable: all that a module needs to be well
/// guarded once it is blanked.
pub open spec fn presentable(words: Seq<u32>) -> bool {
    &&& words.len() >= HEADER_WORDS
    &&& presentable_from(words, HEADER_WORDS as int, false)
    &&& has_memory_model(words, HEADER_WORDS as int, false)
}

/// Blanking changes no length.
proof fn lemma_blanked_length(words: Seq<u32>, from: int)
    requires
        0 <= from <= words.len(),
    ensures
        blanked_from(words, from).len() == words.len() - from,
    decreases words.len() - from,
{
    if from < words.len() && framed_at(words, from) {
        lemma_blanked_length(words, from + word_count(words[from]));
    }
}

/// What `clean` holds from `from` on is the blanked rest of `words`.
spec fn continues(words: Seq<u32>, clean: Seq<u32>, from: int) -> bool {
    &&& clean.len() == words.len()
    &&& 0 <= from <= words.len()
    &&& clean.subrange(from, clean.len() as int) == blanked_from(words, from)
}

/// Where `clean` continues `words` at a framed instruction, it holds that
/// instruction, or as many no-ops if it is dropped, and continues `words` behind it.
proof fn lemma_continues(words: Seq<u32>, clean: Seq<u32>, from: int)
    requires
        continues(words, clean, from),
        framed_at(words, from),
    ensures
        continues(words, clean, from + word_count(words[from])),
        forall|k: int|
            0 <= k < word_count(words[from]) ==> #[trigger] clean[from + k] == (if dropped_at(
                words,
                from,
            ) {
                NOP
            } else {
                words[from + k]
            }),
{
    let count = word_count(words[from]) as int;
    let next = from + count;
    let rest = clean.subrange(from, clean.len() as int);
    lemma_blanked_length(words, next);
    assert forall|k: int| 0 <= k < count implies #[trigger] clean[from + k] == (if dropped_at(
        words,
        from,
    ) {
        NOP
    } else {
        words[from + k]
    }) by {
        assert(clean[from + k] == rest[k]);
    }
    assert(clean.subrange(next, clean.len() as int) =~= blanked_from(words, next)) by {
        assert forall|k: int| 0 <= k < clean.len() - next implies clean.subrange(
            next,
            clean.len() as int,
        )[k] == blanked_from(words, next)[k] by {
            assert(clean[next + k] == rest[count + k]);
        }
    }
}

/// A run of no-ops changes nothing of what is found behind it.
proof fn lemma_no_ops_are_skipped(clean: Seq<u32>, ty: u32, from: int, count: int, in_function: bool)
    requires
        0 <= from,
        0 <= count,
        from + count <= clean.len(),
        forall|k: int| 0 <= k < count ==> #[trigger] clean[from + k] == NOP,
    ensures
        member_count(clean, ty, from) == member_count(clean, ty, from + count),
        has_memory_model(clean, from, in_function) == has_memory_model(
            clean,
            from + count,
            in_function,
        ),
        admissible_from(clean, from, in_function) == admissible_from(
            clean,
            from + count,
            in_function,
        ),
    decreases count,
{
    if count > 0 {
        assert(clean[from + 0] == NOP);
        assert forall|k: int| 0 <= k < count - 1 implies #[trigger] clean[from + 1 + k] == NOP by {
            assert(clean[from + (k + 1)] == NOP);
        }
        lemma_no_ops_are_skipped(clean, ty, from + 1, count - 1, in_function);
    }
}

/// Blanking hides no aggregate type.
proof fn lemma_members_are_kept(words: Seq<u32>, clean: Seq<u32>, ty: u32, from: int)
    requires
        continues(words, clean, from),
    ensures
        member_count(words, ty, from) is Some ==> member_count(clean, ty, from) == member_count(
            words,
            ty,
            from,
        ),
    decreases words.len() - from,
{
    if framed_at(words, from) {
        let count = word_count(words[from]) as int;
        lemma_continues(words, clean, from);
        lemma_members_are_kept(words, clean, ty, from + count);
        assert(clean[from + 0] == if dropped_at(words, from) {
            NOP
        } else {
            words[from]
        });
        if dropped_at(words, from) {
            lemma_no_ops_are_skipped(clean, ty, from, count, false);
        }
    }
}

/// What is presentable is well guarded once it is blanked.
proof fn lemma_presentable_is_guarded(words: Seq<u32>, clean: Seq<u32>, from: int, in_function: bool)
    requires
        words.len() >= HEADER_WORDS,
        continues(words, clean, HEADER_WORDS as int),
        continues(words, clean, from),
        HEADER_WORDS <= from,
        presentable_from(words, from, in_function),
    ensures
        admissible_from(clean, from, in_function),
        has_memory_model(clean, from, in_function) == has_memory_model(words, from, in_function),
    decreases words.len() - from,
{
    if from < words.len() {
        let count = word_count(words[from]) as int;
        let op = opcode(words[from]);
        lemma_continues(words, clean, from);
        lemma_presentable_is_guarded(words, clean, from + count, entered(op, in_function));
        assert(clean[from + 0] == if dropped_at(words, from) {
            NOP
        } else {
            words[from]
        });
        if dropped_at(words, from) {
            lemma_no_ops_are_skipped(clean, 0, from, count, in_function);
        } else if op == OP_MEMBER_NAME && count >= 4 {
            lemma_members_are_kept(words, clean, words[from + 1], HEADER_WORDS as int);
        }
    }
}

/// What is well guarded once it is blanked was presentable.
proof fn lemma_guarded_was_presentable(words: Seq<u32>, clean: Seq<u32>, from: int, in_function: bool)
    requires
        continues(words, clean, from),
        admissible_from(clean, from, in_function),
    ensures
        presentable_from(words, from, in_function),
        has_memory_model(clean, from, in_function) == has_memory_model(words, from, in_function),
    decreases words.len() - from,
{
    if from < words.len() {
        assert(clean[from] == clean.subrange(from, clean.len() as int)[0]);
        if framed_at(words, from) {
            let count = word_count(words[from]) as int;
            let op = opcode(words[from]);
            lemma_continues(words, clean, from);
            if dropped_at(words, from) {
                lemma_no_ops_are_skipped(clean, 0, from, count, in_function);
            }
            lemma_guarded_was_presentable(words, clean, from + count, entered(op, in_function));
        }
    }
}

/// A module is well guarded once it is blanked exactly if it is presentable.
pub proof fn lemma_guarded_iff_presentable(words: Seq<u32>)
    ensures
        well_guarded(blanked(words)) == presentable(words),
{
    if words.len() >= HEADER_WORDS {
        let clean = blanked(words);
        lemma_blanked_length(words, HEADER_WORDS as int);
        assert(clean.subrange(HEADER_WORDS as int, clean.len() as int) =~= blanked_from(
            words,
            HEADER_WORDS as int,
        ));
        if presentable(words) {
            lemma_presentable_is_guarded(words, clean, HEADER_WORDS as int, false);
        }
        if well_guarded(clean) {
            lemma_guarded_was_presentable(words, clean, HEADER_WORDS as int, false);
        }
    }
}

/// The length of the instruction that starts at `at`, if one is framed there.
fn frame(words: &[u32], at: usize) -> (count: Option<usize>)
    requires
        at < words.len(),
    ensures
        match count {
            Some(count) => framed_at(words@, at as int) && count == word_count(words@[at as int]),
            None => !framed_at(words@, at as int),
        },
{
    let count = (words[at] / 65536) as usize;
    if 1 <= count && count <= words.len() - at {
        Some(count)
    } else {
        None
    }
}

fn decorates(op: u32) -> (yes: bool)
    ensures
        yes == is_decoration(op),
{
    (71 <= op && op <= 75) || op == 332 || op == 5632 || op == 5633
}

fn count_members(words: &[u32], ty: u32) -> (count: Option<usize>)
    requires
        words.len() >= HEADER_WORDS,
    ensures
        match count {
            Some(count) => member_count(words@, ty, HEADER_WORDS as int) == Some(count as nat),
            None => member_count(words@, ty, HEADER_WORDS as int) is None,
        },
{
    let mut at: usize = HEADER_WORDS;
    while at < words.len()
        invariant
            HEADER_WORDS <= at <= words.len(),
            member_count(words@, ty, HEADER_WORDS as int) == member_count(words@, ty, at as int),
        decreases words.len() - at,
    {
        match frame(words, at) {
            None => {
                return None;
            },
            Some(count) => {
                if words[at] % 65536 == OP_TYPE_STRUCT && count >= 2 && words[at + 1] == ty {
                    return Some(count - 2);
                }
                at += count;
            },
        }
    }
    None
}

fn member_exists(words: &[u32], at: usize) -> (yes: bool)
    requires
        words.len() >= HEADER_WORDS,
        framed_at(words@, at as int),
        word_count(words@[at as int]) >= 3,
    ensures
        yes == names_member(words@, at as int),
{
    match count_members(words, words[at + 1]) {
        Some(count) => (words[at + 2] as usize) < count,
        None => false,
    }
}

fn copy_words(out: &mut Vec<u32>, words: &[u32], from: usize, to: usize)
    requires
        from <= to <= words.len(),
    ensures
        final(out)@ == old(out)@ + words@.subrange(from as int, to as int),
{
    let mut at: usize = from;
    while at < to
        invariant
            from <= at <= to <= words.len(),
            out@ == old(out)@ + words@.subrange(from as int, at as int),
        decreases to - at,
    {
        out.push(words[at]);
        at += 1;
    }
}

fn put_no_ops(out: &mut Vec<u32>, count: usize)
    ensures
        final(out)@ == old(out)@ + Seq::new(count as nat, |k: int| NOP),
{
    let mut done: usize = 0;
    while done < count
        invariant
            done <= count,
            out@ == old(out)@ + Seq::new(done as nat, |k: int| NOP),
        decreases count - done,
    {
        out.push(NOP);
        done += 1;
    }
}

/// Overwrites with no-ops what the parser must not see: the decorations, which it
/// would look up by ids that need not exist, and the member names that name no
/// member of any aggregate type.
pub fn blank(words: &[u32]) -> (out: Vec<u32>)
    ensures
        out@ == blanked(words@),
{
    let mut out: Vec<u32> = Vec::new();
    if words.len() < HEADER_WORDS {
        copy_words(&mut out, words, 0, words.len());
        return out;
    }
    copy_words(&mut out, words, 0, HEADER_WORDS);
    let mut at: usize = HEADER_WORDS;
    while at < words.len()
        invariant
            HEADER_WORDS <= at <= words.len(),
            out@ + blanked_from(words@, at as int) == blanked(words@),
        decreases words.len() - at,
    {
        match frame(words, at) {
            None => {
                copy_words(&mut out, words, at, words.len());
                at = words.len();
            },
            Some(count) => {
                let op = words[at] % 65536;
                let dropped = decorates(op) || (op == OP_MEMBER_NAME && count >= 4
                    && !member_exists(words, at));
                if dropped {
                    put_no_ops(&mut out, count);
                } else {
                    copy_words(&mut out, words, at, at + count);
                }
                at += count;
            },
        }
    }
    out
}

/// Whether the module can be handed to the parser.
pub fn is_well_guarded(words: &[u32]) -> (yes: bool)
    ensures
        yes == well_guarded(words@),
{
    if words.len() < HEADER_WORDS {
        return false;
    }
    let mut at: usize = HEADER_WORDS;
    let mut in_function = false;
    let mut memory_model = false;
    while at < words.len()
        invariant
            HEADER_WORDS <= at <= words.len(),
            admissible_from(words@, HEADER_WORDS as int, false) == admissible_from(
                words@,
                at as int,
                in_function,
            ),
            has_memory_model(words@, HEADER_WORDS as int, false) == (memory_model
                || has_memory_model(words@, at as int, in_function)),
        decreases words.len() - at,
    {
        let count = match frame(words, at) {
            Some(count) => count,
            None => {
                return false;
            },
        };
        let op = words[at] % 65536;
        if decorates(op) {
            return false;
        }
        if count >= 2 && words[at + 1] == u32::MAX {
            return false;
        }
        if count >= 3 && words[at + 2] == u32::MAX {
            return false;
        }
        if op == OP_FUNCTION_END && !in_function {
            return false;
        }
        if op == OP_MEMBER_NAME && count >= 4 && !member_exists(words, at) {
            return false;
        }
        if op == OP_MEMORY_MODEL && !in_function {
            memory_model = true;
        }
        if op == OP_FUNCTION {
            in_function = true;
        } else if op == OP_FUNCTION_END {
            in_function = false;
        }
        at += count;
    }
    memory_model
}

} // verus!
