//! What holds of the builder and of the record it makes, whatever the settings.

use crate::builder::{is_reserved, BuilderView};
use crate::encoding::{
    has_interior_nul, is_nul_terminated, lemma_interior_nul_is_nul_char,
    lemma_nul_terminated_decodes_back, lemma_nul_terminated_is_well_formed, nul_terminated,
};
use crate::version::JNIVersion;
use vstd::prelude::*;
use vstd::utf8::*;

verus! {

/// None of the reserved names holds the character NUL, so a text with a zero byte
/// in its UTF-8 form is never turned away as reserved.
pub proof fn law_reserved_names_are_encodable(text: Seq<char>)
    requires
        is_reserved(text),
    ensures
        !has_interior_nul(text),
{
    reveal_strlit("vfprintf");
    reveal_strlit("abort");
    reveal_strlit("exit");
    lemma_interior_nul_is_nul_char(text);
}

/// Offering a reserved name changes nothing: the settings stay as they were, and the
/// name is not among the options afterwards.
pub proof fn law_reserved_name_is_dropped(b: BuilderView, text: Seq<char>)
    requires
        b.wf(),
        is_reserved(text),
    ensures
        b.with_option(text) == b,
        b.with_option(text).options.len() == b.options.len(),
        !b.with_option(text).options.contains(text),
{
}

/// Any other text is taken as the last option, behind those that were taken before,
/// and nothing else changes.
pub proof fn law_accepted_option_is_appended(b: BuilderView, text: Seq<char>)
    requires
        b.wf(),
        !is_reserved(text),
    ensures
        b.with_option(text).options == b.options.push(text),
        b.with_option(text).version == b.version,
        b.with_option(text).ignore_unrecognized == b.ignore_unrecognized,
        b.with_option(text).wf(),
{
}

/// Where every option can be encoded, an accepted text that can be encoded too
/// leaves it so, and its buffer is the last one of the record, behind the buffers of
/// the earlier options; the buffer decodes back to the text.
pub proof fn law_accepted_option_is_encoded_in_place(b: BuilderView, text: Seq<char>)
    requires
        b.all_encodable(),
        !is_reserved(text),
        !has_interior_nul(text),
    ensures
        b.with_option(text).all_encodable(),
        b.with_option(text).finalized().options == b.finalized().options.push(
            nul_terminated(text),
        ),
        decode_utf8(
            b.with_option(text).finalized().options[b.options.len() as int].drop_last(),
        ) == text,
{
    let after = b.with_option(text);
    assert(after.finalized().options =~= b.finalized().options.push(nul_terminated(text)));
    lemma_nul_terminated_decodes_back(text);
}

/// Once a text with a zero byte in its UTF-8 form was offered, the settings cannot
/// be built.
pub proof fn law_interior_nul_fails_build(b: BuilderView, text: Seq<char>)
    requires
        has_interior_nul(text),
    ensures
        !b.with_option(text).all_encodable(),
{
    if is_reserved(text) {
        law_reserved_names_are_encodable(text);
    }
    let after = b.with_option(text);
    assert(after.options[b.options.len() as int] == text);
}

/// Where every earlier option can be encoded, the text with a zero byte that was
/// offered last is the one that the failed build reports.
pub proof fn law_interior_nul_is_reported(b: BuilderView, text: Seq<char>)
    requires
        b.all_encodable(),
        has_interior_nul(text),
    ensures
        b.with_option(text).is_first_rejected(b.options.len() as int),
        forall|i: int| #[trigger]
            b.with_option(text).is_first_rejected(i) ==> b.with_option(text).options[i] == text,
{
    if is_reserved(text) {
        law_reserved_names_are_encodable(text);
    }
    let after = b.with_option(text);
    let last = b.options.len() as int;
    assert(after.options[last] == text);
    assert forall|j: int| 0 <= j < last implies !has_interior_nul(#[trigger] after.options[j]) by {
        assert(after.options[j] == b.options[j]);
    }
    assert forall|i: int| #[trigger] after.is_first_rejected(i) implies after.options[i]
        == text by {
        if i < last {
            assert(after.options[i] == b.options[i]);
        }
    }
}

/// Settings that cannot be built have a first option that cannot be encoded.
pub proof fn law_failed_build_has_first_rejected(b: BuilderView)
    requires
        !b.all_encodable(),
    ensures
        exists|i: int| b.is_first_rejected(i),
{
    let k = choose|k: int| 0 <= k < b.options.len() && has_interior_nul(#[trigger] b.options[k]);
    lemma_rejected_has_first(b, k);
}

proof fn lemma_rejected_has_first(b: BuilderView, k: int)
    requires
        0 <= k < b.options.len(),
        has_interior_nul(b.options[k]),
    ensures
        exists|i: int| b.is_first_rejected(i),
    decreases k,
{
    if forall|j: int| 0 <= j < k ==> !has_interior_nul(#[trigger] b.options[j]) {
        assert(b.is_first_rejected(k));
    } else {
        let j = choose|j: int| 0 <= j < k && has_interior_nul(#[trigger] b.options[j]);
        lemma_rejected_has_first(b, j);
    }
}

/// There is one first option that cannot be encoded, so what a failed build reports
/// is determined by the settings.
pub proof fn law_first_rejected_is_unique(b: BuilderView, i: int, j: int)
    requires
        b.is_first_rejected(i),
        b.is_first_rejected(j),
    ensures
        i == j,
{
    if i < j {
        assert(!has_interior_nul(b.options[i]));
    } else if j < i {
        assert(!has_interior_nul(b.options[j]));
    }
}

/// Of two versions chosen one after the other, the second stands.
pub proof fn law_last_version_wins(b: BuilderView, first: JNIVersion, second: JNIVersion)
    ensures
        b.with_version(first).with_version(second) == b.with_version(second),
{
}

/// Of two settings of the flag made one after the other, the second stands.
pub proof fn law_last_ignore_unrecognized_wins(b: BuilderView, first: bool, second: bool)
    ensures
        b.with_ignore_unrecognized(first).with_ignore_unrecognized(second)
            == b.with_ignore_unrecognized(second),
{
}

/// The record holds one buffer for each option that was taken, in the same order,
/// and carries the version's integer and the flag.
pub proof fn law_one_buffer_per_option(b: BuilderView)
    ensures
        b.finalized().options.len() == b.options.len(),
        forall|i: int|
            0 <= i < b.options.len() ==> #[trigger] b.finalized().options[i] == nul_terminated(
                b.options[i],
            ),
        b.finalized().version == b.version.spec_code(),
        b.finalized().ignore_unrecognized == b.ignore_unrecognized,
{
}

/// Every buffer of a record that was built ends in its only zero byte.
pub proof fn law_buffers_are_nul_terminated(b: BuilderView)
    requires
        b.all_encodable(),
    ensures
        forall|i: int|
            0 <= i < b.options.len() ==> is_nul_terminated(#[trigger] b.finalized().options[i]),
{
    assert forall|i: int| 0 <= i < b.options.len() implies is_nul_terminated(
        #[trigger] b.finalized().options[i],
    ) by {
        assert(!has_interior_nul(b.options[i]));
        lemma_nul_terminated_is_well_formed(b.options[i]);
    }
}

/// The options that are held after a run of offers are the offered texts without
/// the reserved names, in the order of the offers, behind those held before.
pub proof fn law_options_are_offers_without_reserved(b: BuilderView, texts: Seq<Seq<char>>)
    ensures
        b.with_options(texts).options == b.options + texts.filter(
            |text: Seq<char>| !is_reserved(text),
        ),
        b.with_options(texts).version == b.version,
        b.with_options(texts).ignore_unrecognized == b.ignore_unrecognized,
    decreases texts.len(),
{
    let accepted = |text: Seq<char>| !is_reserved(text);
    reveal(Seq::filter);
    if texts.len() == 0 {
        assert(b.options + texts.filter(accepted) =~= b.options);
    } else {
        law_options_are_offers_without_reserved(b, texts.drop_last());
        assert(b.with_options(texts).options =~= b.options + texts.filter(accepted));
    }
}

/// Settings without options can be built, and their record holds no buffer.
pub proof fn law_no_options_builds_empty_record(b: BuilderView)
    requires
        b.options.len() == 0,
    ensures
        b.all_encodable(),
        b.finalized().options == Seq::<Seq<u8>>::empty(),
{
    assert(b.finalized().options =~= Seq::<Seq<u8>>::empty());
}

} // verus!
