//! What holds of every request the client builds and of every reply it
//! hands back.
use crate::client::{enabled_params, names_distinct, JObfuscatorView, ParamName};
use crate::codec::{
    base64_decoded, base64_standard, packed_text, unpacked_text, zlib_compressed,
    zlib_decompressed_text,
};
use vstd::utf8::encode_utf8;
use crate::response::{JObfuscatorResponseView, JObfuscatorResultView, ReplyView};
use vstd::prelude::*;

verus! {

/// A sequence of parameters whose parts each name distinct parameters, and
/// share no name, names distinct parameters.
proof fn lemma_concat_distinct(a: Seq<(ParamName, Seq<char>)>, b: Seq<(ParamName, Seq<char>)>)
    requires
        names_distinct(a),
        names_distinct(b),
        forall|i: int, j: int| 0 <= i < a.len() && 0 <= j < b.len() ==> #[trigger] a[i].0 != #[trigger] b[j].0,
    ensures
        names_distinct(a + b),
{
    let c = a + b;
    assert forall|i: int, j: int| 0 <= i < j < c.len() implies #[trigger] c[i].0 != #[trigger] c[j].0 by {
        if j < a.len() {
            assert(c[i] == a[i] && c[j] == a[j]);
        } else if i < a.len() {
            assert(c[i] == a[i] && c[j] == b[j - a.len()]);
        } else {
            assert(c[i] == b[i - a.len()] && c[j] == b[j - a.len()]);
        }
    }
}

/// One step of `enabled_params`.
proof fn lemma_enabled_step(switches: Seq<(ParamName, bool)>)
    requires
        switches.len() > 0,
    ensures
        enabled_params(switches) == (if switches.last().1 {
            enabled_params(switches.drop_last()).push((switches.last().0, "1"@))
        } else {
            enabled_params(switches.drop_last())
        }),
{
}

/// Every parameter that switches a strategy on comes from a switch set to
/// `true`, with the value `"1"`.
proof fn lemma_enabled_origin(switches: Seq<(ParamName, bool)>)
    ensures
        forall|k: int|
            #![trigger enabled_params(switches)[k]]
            0 <= k < enabled_params(switches).len() ==> enabled_params(switches)[k].1 == "1"@
                && exists|j: int|
                0 <= j < switches.len() && switches[j].1 && #[trigger] switches[j].0
                    == enabled_params(switches)[k].0,
    decreases switches.len(),
{
    if switches.len() > 0 {
        let init = switches.drop_last();
        lemma_enabled_origin(init);
        lemma_enabled_step(switches);
        let rest = enabled_params(init);
        let out = enabled_params(switches);
        assert forall|k: int| 0 <= k < out.len() implies out[k].1 == "1"@ && exists|j: int|
            0 <= j < switches.len() && switches[j].1 && #[trigger] switches[j].0 == out[k].0 by {
            if k < rest.len() {
                assert(out[k] == rest[k]);
                let j = choose|j: int| 0 <= j < init.len() && init[j].1 && #[trigger] init[j].0 == rest[k].0;
                assert(switches[j] == init[j]);
            } else {
                assert(switches[switches.len() - 1] == switches.last());
            }
        }
    }
}

/// Every switch set to `true` yields a parameter of its name.
proof fn lemma_enabled_complete(switches: Seq<(ParamName, bool)>)
    ensures
        forall|j: int|
            #![trigger switches[j]]
            0 <= j < switches.len() && switches[j].1 ==> exists|k: int|
                0 <= k < enabled_params(switches).len() && #[trigger] enabled_params(switches)[k].0
                    == switches[j].0,
    decreases switches.len(),
{
    if switches.len() > 0 {
        let init = switches.drop_last();
        lemma_enabled_complete(init);
        lemma_enabled_step(switches);
        let rest = enabled_params(init);
        let out = enabled_params(switches);
        assert forall|j: int| 0 <= j < switches.len() && switches[j].1 implies exists|k: int|
            0 <= k < out.len() && #[trigger] out[k].0 == switches[j].0 by {
            if j < init.len() {
                assert(init[j] == switches[j]);
                let k = choose|k: int| 0 <= k < rest.len() && #[trigger] rest[k].0 == init[j].0;
                assert(out[k] == rest[k]);
            } else {
                assert(out[out.len() - 1].0 == switches.last().0);
            }
        }
    }
}

/// Switches of distinct names yield parameters of distinct names.
proof fn lemma_enabled_distinct(switches: Seq<(ParamName, bool)>)
    requires
        forall|i: int, j: int|
            0 <= i < j < switches.len() ==> #[trigger] switches[i].0 != #[trigger] switches[j].0,
    ensures
        names_distinct(enabled_params(switches)),
    decreases switches.len(),
{
    if switches.len() > 0 {
        let init = switches.drop_last();
        assert forall|i: int, j: int| 0 <= i < j < init.len() implies #[trigger] init[i].0
            != #[trigger] init[j].0 by {
            assert(init[i] == switches[i] && init[j] == switches[j]);
        }
        lemma_enabled_distinct(init);
        lemma_enabled_origin(init);
        lemma_enabled_step(switches);
        let rest = enabled_params(init);
        let last = switches.last();
        if last.1 {
            assert forall|k: int| 0 <= k < rest.len() implies rest[k].0 != last.0 by {
                let j = choose|j: int| 0 <= j < init.len() && init[j].1 && #[trigger] init[j].0 == rest[k].0;
                assert(switches[j] == init[j]);
                assert(switches[switches.len() - 1] == last);
            }
            lemma_concat_distinct(rest, seq![(last.0, "1"@)]);
            assert(rest + seq![(last.0, "1"@)] =~= rest.push((last.0, "1"@)));
        }
    }
}

/// The position of a strategy among the switches.
spec fn strategy_rank(name: ParamName) -> int {
    match name {
        ParamName::MixCodeFlow => 0,
        ParamName::RenameVariables => 1,
        ParamName::RenameMethods => 2,
        ParamName::ShuffleMethods => 3,
        ParamName::IntsMathCrypt => 4,
        ParamName::CryptStrings => 5,
        ParamName::IntsToArrays => 6,
        ParamName::DblsToArrays => 7,
        ParamName::RemoveComments => 8,
        ParamName::DblsMathCrypt => 9,
        ParamName::StringCharVault => 10,
        ParamName::IntsFromDoubleMath => 11,
        ParamName::OpaqueMixerChain => 12,
        ParamName::ComplexifyBooleans => 13,
        ParamName::TryFinallyNoise => 14,
        ParamName::ArrayIntCrypt => 15,
        ParamName::ArrayCharCrypt => 16,
        ParamName::ArrayDoubleCrypt => 17,
        ParamName::ArrayStringCrypt => 18,
        _ => -1,
    }
}

/// The strategy switches name distinct strategies.
proof fn lemma_switches(cfg: JObfuscatorView)
    ensures
        forall|i: int, j: int|
            0 <= i < j < cfg.strategy_switches().len() ==> #[trigger] cfg.strategy_switches()[i].0
                != #[trigger] cfg.strategy_switches()[j].0,
        forall|i: int|
            0 <= i < cfg.strategy_switches().len() ==> (#[trigger] cfg.strategy_switches()[i]).0.is_strategy(),
{
    reveal(JObfuscatorView::switch_at);
    let sw = cfg.strategy_switches();
    assert forall|i: int| 0 <= i < sw.len() implies strategy_rank((#[trigger] sw[i]).0) == i
        && sw[i].0.is_strategy() by {
        assert(sw[i] == cfg.switch_at(i));
    }
    assert forall|i: int, j: int| 0 <= i < j < sw.len() implies #[trigger] sw[i].0 != #[trigger] sw[j].0 by {
        assert(strategy_rank(sw[i].0) == i);
        assert(strategy_rank(sw[j].0) == j);
    }
}

/// Every request sends each parameter name at most once.
pub proof fn law_request_names_distinct(
    cfg: JObfuscatorView,
    command: Seq<char>,
    source: Option<Seq<char>>,
)
    ensures
        names_distinct(cfg.request_params(command, source)),
{
    lemma_switches(cfg);
    let sw = cfg.strategy_switches();
    lemma_enabled_distinct(sw);
    lemma_enabled_origin(sw);
    let flags = enabled_params(sw);
    assert forall|k: int| 0 <= k < flags.len() implies (#[trigger] flags[k]).0.is_strategy() by {
        let j = choose|j: int| 0 <= j < sw.len() && sw[j].1 && #[trigger] sw[j].0 == flags[k].0;
        assert(sw[j].0.is_strategy());
    }
    let key = cfg.key_params();
    assert(names_distinct(key));
    lemma_concat_distinct(key, flags);
    let opts = key + flags;
    assert forall|k: int| 0 <= k < opts.len() implies (#[trigger] opts[k]).0.is_strategy() || opts[k].0
        == ParamName::Key by {
        if k >= key.len() {
            assert(opts[k] == flags[k - key.len()]);
        }
    }
    {
        {
            match source {
                None => {
                    let head = seq![(ParamName::Command, command)];
                    lemma_concat_distinct(head, opts);
                },
                Some(text) => {
                    let head = seq![
                        (ParamName::Command, command),
                        (ParamName::Source, cfg.source_on_wire(text)),
                    ];
                    lemma_concat_distinct(head, opts);
                    let tail: Seq<(ParamName, Seq<char>)> = if cfg.enable_compression {
                        seq![(ParamName::Compression, "1"@)]
                    } else {
                        seq![]
                    };
                    let body = head + opts;
                    assert forall|k: int| 0 <= k < body.len() implies (#[trigger] body[k]).0
                        != ParamName::Compression by {
                        if k >= head.len() {
                            assert(body[k] == opts[k - head.len()]);
                        }
                    }
                    lemma_concat_distinct(body, tail);
                },
            }
        }
    }
}

/// The activation key is sent exactly when a non-empty key was given, and it
/// is sent as given.
pub proof fn law_key_param(cfg: JObfuscatorView, command: Seq<char>, source: Option<Seq<char>>)
    ensures
        ({
            let params = cfg.request_params(command, source);
            &&& cfg.api_key matches Some(key) ==> (key.len() > 0 ==> exists|i: int|
                0 <= i < params.len() && #[trigger] params[i] == (ParamName::Key, key))
            &&& forall|i: int|
                0 <= i < params.len() && (#[trigger] params[i]).0 == ParamName::Key ==> cfg.api_key
                    == Some(params[i].1) && params[i].1.len() > 0
        }),
{
    lemma_switches(cfg);
    let sw = cfg.strategy_switches();
    lemma_enabled_origin(sw);
    let flags = enabled_params(sw);
    let key = cfg.key_params();
    {
        let params = cfg.request_params(command, source);
        let head_len: int = if source is Some {
            2
        } else {
            1
        };
        assert forall|i: int|
            0 <= i < params.len() && (#[trigger] params[i]).0 == ParamName::Key implies cfg.api_key
            == Some(params[i].1) && params[i].1.len() > 0 by {
            if head_len <= i < head_len + key.len() {
                assert(params[i] == key[i - head_len]);
            } else if head_len + key.len() <= i < head_len + key.len() + flags.len() {
                let k = i - head_len - key.len();
                assert(params[i] == flags[k]);
                let j = choose|j: int| 0 <= j < sw.len() && sw[j].1 && #[trigger] sw[j].0 == flags[k].0;
                assert(sw[j].0.is_strategy());
            }
        }
        if let Some(k) = cfg.api_key {
            if k.len() > 0 {
                assert(params[head_len] == (ParamName::Key, k));
            }
        }
    }
}

/// Parameters that hold the enabled strategy parameters at `base` and no
/// other strategy parameter hold each enabled strategy, with `"1"`, and no
/// disabled one.
proof fn lemma_flags_placed(
    params: Seq<(ParamName, Seq<char>)>,
    base: int,
    switches: Seq<(ParamName, bool)>,
)
    requires
        0 <= base,
        base + enabled_params(switches).len() <= params.len(),
        forall|k: int|
            0 <= k < enabled_params(switches).len() ==> params[base + k] == #[trigger] enabled_params(
                switches,
            )[k],
        forall|i: int|
            0 <= i < params.len() && !(base <= i < base + enabled_params(switches).len())
                ==> !(#[trigger] params[i]).0.is_strategy(),
    ensures
        forall|j: int|
            0 <= j < switches.len() && (#[trigger] switches[j]).1 ==> exists|i: int|
                0 <= i < params.len() && #[trigger] params[i] == (switches[j].0, "1"@),
        forall|i: int|
            0 <= i < params.len() && (#[trigger] params[i]).0.is_strategy() ==> params[i].1 == "1"@
                && exists|j: int| 0 <= j < switches.len() && #[trigger] switches[j] == (params[i].0, true),
{
    lemma_enabled_origin(switches);
    lemma_enabled_complete(switches);
    let flags = enabled_params(switches);
    assert forall|j: int| 0 <= j < switches.len() && (#[trigger] switches[j]).1 implies exists|i: int|
        0 <= i < params.len() && #[trigger] params[i] == (switches[j].0, "1"@) by {
        let k = choose|k: int| 0 <= k < flags.len() && #[trigger] flags[k].0 == switches[j].0;
        assert(params[base + k] == flags[k]);
    }
    assert forall|i: int| 0 <= i < params.len() && (#[trigger] params[i]).0.is_strategy() implies params[i].1
        == "1"@ && exists|j: int| 0 <= j < switches.len() && #[trigger] switches[j] == (params[i].0, true) by {
        assert(params[i] == flags[i - base]);
        let j = choose|j: int|
            0 <= j < switches.len() && switches[j].1 && #[trigger] switches[j].0 == flags[i - base].0;
        assert(switches[j] == (params[i].0, true));
    }
}

/// A strategy is requested exactly when its switch is on, and always with
/// the value `"1"`.
pub proof fn law_strategy_params(
    cfg: JObfuscatorView,
    command: Seq<char>,
    source: Option<Seq<char>>,
)
    ensures
        ({
            let params = cfg.request_params(command, source);
            &&& forall|j: int|
                0 <= j < cfg.strategy_switches().len() && (#[trigger] cfg.strategy_switches()[j]).1
                    ==> exists|i: int|
                    0 <= i < params.len() && #[trigger] params[i] == (
                        cfg.strategy_switches()[j].0,
                        "1"@,
                    )
            &&& forall|i: int|
                0 <= i < params.len() && (#[trigger] params[i]).0.is_strategy() ==> params[i].1
                    == "1"@ && exists|j: int|
                    0 <= j < cfg.strategy_switches().len() && #[trigger] cfg.strategy_switches()[j]
                        == (params[i].0, true)
        }),
{
    let sw = cfg.strategy_switches();
    let flags = enabled_params(sw);
    let key = cfg.key_params();
    let params = cfg.request_params(command, source);
    let head_len: int = if source is Some {
        2int
    } else {
        1int
    };
    let base = head_len + key.len();
    assert forall|k: int| 0 <= k < flags.len() implies params[base + k] == #[trigger] flags[k] by {
    }
    assert forall|i: int|
        0 <= i < params.len() && !(base <= i < base + flags.len()) implies !(
        #[trigger] params[i]).0.is_strategy() by {
        if head_len <= i < base {
            assert(params[i] == key[i - head_len]);
        }
    }
    lemma_flags_placed(params, base, sw);
}

/// The source goes out as the standard Base64 of its zlib stream, with the
/// compression marker, exactly when compression is enabled, and verbatim
/// otherwise; a request without a source has neither.
pub proof fn law_source_param(cfg: JObfuscatorView, command: Seq<char>, text: Seq<char>)
    ensures
        ({
            let params = cfg.request_params(command, Some(text));
            &&& params[0] == (ParamName::Command, command)
            &&& params[1] == (ParamName::Source, if cfg.enable_compression {
                packed_text(text)
            } else {
                text
            })
            &&& cfg.enable_compression <==> exists|i: int|
                0 <= i < params.len() && (#[trigger] params[i]).0 == ParamName::Compression
        }),
        ({
            let params = cfg.request_params(command, None);
            forall|i: int|
                0 <= i < params.len() ==> (#[trigger] params[i]).0 != ParamName::Compression
                    && params[i].0 != ParamName::Source
        }),
        packed_text(text) == base64_standard(zlib_compressed(encode_utf8(text))),
{
    reveal(packed_text);
    lemma_switches(cfg);
    let sw = cfg.strategy_switches();
    lemma_enabled_origin(sw);
    let flags = enabled_params(sw);
    let key = cfg.key_params();
    let opts = key + flags;
    assert forall|k: int| 0 <= k < opts.len() implies (#[trigger] opts[k]).0.is_strategy() || opts[k].0
        == ParamName::Key by {
        if k >= key.len() {
            assert(opts[k] == flags[k - key.len()]);
            let j = choose|j: int|
                0 <= j < sw.len() && sw[j].1 && #[trigger] sw[j].0 == flags[k - key.len()].0;
        }
    }
    {
        let params = cfg.request_params(command, Some(text));
        if cfg.enable_compression {
            assert(params[params.len() - 1].0 == ParamName::Compression);
        } else {
            assert forall|i: int| 0 <= i < params.len() implies (#[trigger] params[i]).0
                != ParamName::Compression by {
                if i >= 2 {
                    assert(params[i] == opts[i - 2]);
                }
            }
        }
    }
    {
        let params = cfg.request_params(command, None);
        assert forall|i: int| 0 <= i < params.len() implies (#[trigger] params[i]).0
            != ParamName::Compression && params[i].0 != ParamName::Source by {
            if i >= 1 {
                assert(params[i] == opts[i - 1]);
            }
        }
    }
}

/// A call yields nothing exactly when the body is empty, does not parse, or
/// its output should be unpacked and cannot be; asked for an object it yields
/// the result, and otherwise the body unchanged unless the output was
/// unpacked.
pub proof fn law_reply_shape(
    cfg: JObfuscatorView,
    text: Seq<char>,
    parsed: Option<JObfuscatorResultView>,
    return_as_object: bool,
)
    ensures
        (cfg.reply_for(text, parsed, return_as_object) is Nothing) <==> (text.len() == 0 || parsed is None
            || (cfg.should_unpack(parsed->0) && unpacked_text(parsed->0.output->0) is None)),
        return_as_object ==> !(cfg.reply_for(text, parsed, return_as_object) is Encode),
        return_as_object ==> (cfg.reply_for(text, parsed, return_as_object) matches ReplyView::Deliver(
            resp,
        ) ==> resp is Object),
        !return_as_object ==> (cfg.reply_for(text, parsed, return_as_object) matches ReplyView::Deliver(
            resp,
        ) ==> resp == JObfuscatorResponseView::Json(text)),
        text.len() > 0 ==> (parsed matches Some(reply) ==> (!cfg.should_unpack(reply) ==> cfg.reply_for(
            text,
            parsed,
            return_as_object,
        ) == (if return_as_object {
            ReplyView::Deliver(JObfuscatorResponseView::Object(reply))
        } else {
            ReplyView::Deliver(JObfuscatorResponseView::Json(text))
        }))),
{
}

/// Switching a configurable strategy sets it, and leaves the key,
/// compression and comment stripping as they were.
pub proof fn law_with_strategy(cfg: JObfuscatorView, name: ParamName, on: bool)
    ensures
        name.is_strategy() && !(name is RemoveComments) ==> cfg.with_strategy(name, on).strategy_on(
            name,
        ) == on,
        cfg.with_strategy(name, on).api_key == cfg.api_key,
        cfg.with_strategy(name, on).enable_compression == cfg.enable_compression,
        cfg.with_strategy(name, on).remove_comments == cfg.remove_comments,
{
    reveal(JObfuscatorView::strategy_on);
    reveal(JObfuscatorView::with_strategy);
}



/// Switching a strategy other than `mix_code_flow` leaves `mix_code_flow` as it was.
proof fn lemma_keeps_mix_code_flow(cfg: JObfuscatorView, name: ParamName, on: bool)
    ensures
        !(name is MixCodeFlow) ==> cfg.with_strategy(name, on).mix_code_flow == cfg.mix_code_flow,
{
    reveal(JObfuscatorView::with_strategy);
}

/// Switching a strategy other than `rename_variables` leaves `rename_variables` as it was.
proof fn lemma_keeps_rename_variables(cfg: JObfuscatorView, name: ParamName, on: bool)
    ensures
        !(name is RenameVariables) ==> cfg.with_strategy(name, on).rename_variables == cfg.rename_variables,
{
    reveal(JObfuscatorView::with_strategy);
}

/// Switching a strategy other than `rename_methods` leaves `rename_methods` as it was.
proof fn lemma_keeps_rename_methods(cfg: JObfuscatorView, name: ParamName, on: bool)
    ensures
        !(name is RenameMethods) ==> cfg.with_strategy(name, on).rename_methods == cfg.rename_methods,
{
    reveal(JObfuscatorView::with_strategy);
}

/// Switching a strategy other than `shuffle_methods` leaves `shuffle_methods` as it was.
proof fn lemma_keeps_shuffle_methods(cfg: JObfuscatorView, name: ParamName, on: bool)
    ensures
        !(name is ShuffleMethods) ==> cfg.with_strategy(name, on).shuffle_methods == cfg.shuffle_methods,
{
    reveal(JObfuscatorView::with_strategy);
}

/// Switching a strategy other than `ints_math_crypt` leaves `ints_math_crypt` as it was.
proof fn lemma_keeps_ints_math_crypt(cfg: JObfuscatorView, name: ParamName, on: bool)
    ensures
        !(name is IntsMathCrypt) ==> cfg.with_strategy(name, on).ints_math_crypt == cfg.ints_math_crypt,
{
    reveal(JObfuscatorView::with_strategy);
}

/// Switching a strategy other than `crypt_strings` leaves `crypt_strings` as it was.
proof fn lemma_keeps_crypt_strings(cfg: JObfuscatorView, name: ParamName, on: bool)
    ensures
        !(name is CryptStrings) ==> cfg.with_strategy(name, on).crypt_strings == cfg.crypt_strings,
{
    reveal(JObfuscatorView::with_strategy);
}

/// Switching a strategy other than `ints_to_arrays` leaves `ints_to_arrays` as it was.
proof fn lemma_keeps_ints_to_arrays(cfg: JObfuscatorView, name: ParamName, on: bool)
    ensures
        !(name is IntsToArrays) ==> cfg.with_strategy(name, on).ints_to_arrays == cfg.ints_to_arrays,
{
    reveal(JObfuscatorView::with_strategy);
}

/// Switching a strategy other than `dbls_to_arrays` leaves `dbls_to_arrays` as it was.
proof fn lemma_keeps_dbls_to_arrays(cfg: JObfuscatorView, name: ParamName, on: bool)
    ensures
        !(name is DblsToArrays) ==> cfg.with_strategy(name, on).dbls_to_arrays == cfg.dbls_to_arrays,
{
    reveal(JObfuscatorView::with_strategy);
}

/// Switching a strategy other than `remove_comments` leaves `remove_comments` as it was.
proof fn lemma_keeps_remove_comments(cfg: JObfuscatorView, name: ParamName, on: bool)
    ensures
        !(name is RemoveComments) ==> cfg.with_strategy(name, on).remove_comments == cfg.remove_comments,
{
    reveal(JObfuscatorView::with_strategy);
}

/// Switching a strategy other than `dbls_math_crypt` leaves `dbls_math_crypt` as it was.
proof fn lemma_keeps_dbls_math_crypt(cfg: JObfuscatorView, name: ParamName, on: bool)
    ensures
        !(name is DblsMathCrypt) ==> cfg.with_strategy(name, on).dbls_math_crypt == cfg.dbls_math_crypt,
{
    reveal(JObfuscatorView::with_strategy);
}

/// Switching a strategy other than `string_char_vault` leaves `string_char_vault` as it was.
proof fn lemma_keeps_string_char_vault(cfg: JObfuscatorView, name: ParamName, on: bool)
    ensures
        !(name is StringCharVault) ==> cfg.with_strategy(name, on).string_char_vault == cfg.string_char_vault,
{
    reveal(JObfuscatorView::with_strategy);
}

/// Switching a strategy other than `ints_from_double_math` leaves `ints_from_double_math` as it was.
proof fn lemma_keeps_ints_from_double_math(cfg: JObfuscatorView, name: ParamName, on: bool)
    ensures
        !(name is IntsFromDoubleMath) ==> cfg.with_strategy(name, on).ints_from_double_math == cfg.ints_from_double_math,
{
    reveal(JObfuscatorView::with_strategy);
}

/// Switching a strategy other than `opaque_mixer_chain` leaves `opaque_mixer_chain` as it was.
proof fn lemma_keeps_opaque_mixer_chain(cfg: JObfuscatorView, name: ParamName, on: bool)
    ensures
        !(name is OpaqueMixerChain) ==> cfg.with_strategy(name, on).opaque_mixer_chain == cfg.opaque_mixer_chain,
{
    reveal(JObfuscatorView::with_strategy);
}

/// Switching a strategy other than `complexify_booleans` leaves `complexify_booleans` as it was.
proof fn lemma_keeps_complexify_booleans(cfg: JObfuscatorView, name: ParamName, on: bool)
    ensures
        !(name is ComplexifyBooleans) ==> cfg.with_strategy(name, on).complexify_booleans == cfg.complexify_booleans,
{
    reveal(JObfuscatorView::with_strategy);
}

/// Switching a strategy other than `try_finally_noise` leaves `try_finally_noise` as it was.
proof fn lemma_keeps_try_finally_noise(cfg: JObfuscatorView, name: ParamName, on: bool)
    ensures
        !(name is TryFinallyNoise) ==> cfg.with_strategy(name, on).try_finally_noise == cfg.try_finally_noise,
{
    reveal(JObfuscatorView::with_strategy);
}

/// Switching a strategy other than `array_int_crypt` leaves `array_int_crypt` as it was.
proof fn lemma_keeps_array_int_crypt(cfg: JObfuscatorView, name: ParamName, on: bool)
    ensures
        !(name is ArrayIntCrypt) ==> cfg.with_strategy(name, on).array_int_crypt == cfg.array_int_crypt,
{
    reveal(JObfuscatorView::with_strategy);
}

/// Switching a strategy other than `array_char_crypt` leaves `array_char_crypt` as it was.
proof fn lemma_keeps_array_char_crypt(cfg: JObfuscatorView, name: ParamName, on: bool)
    ensures
        !(name is ArrayCharCrypt) ==> cfg.with_strategy(name, on).array_char_crypt == cfg.array_char_crypt,
{
    reveal(JObfuscatorView::with_strategy);
}

/// Switching a strategy other than `array_double_crypt` leaves `array_double_crypt` as it was.
proof fn lemma_keeps_array_double_crypt(cfg: JObfuscatorView, name: ParamName, on: bool)
    ensures
        !(name is ArrayDoubleCrypt) ==> cfg.with_strategy(name, on).array_double_crypt == cfg.array_double_crypt,
{
    reveal(JObfuscatorView::with_strategy);
}

/// Switching a strategy other than `array_string_crypt` leaves `array_string_crypt` as it was.
proof fn lemma_keeps_array_string_crypt(cfg: JObfuscatorView, name: ParamName, on: bool)
    ensures
        !(name is ArrayStringCrypt) ==> cfg.with_strategy(name, on).array_string_crypt == cfg.array_string_crypt,
{
    reveal(JObfuscatorView::with_strategy);
}

/// A configuration `after` whose every strategy other than `name` equals
/// that of `before` agrees with `before` on every strategy other than `name`.
proof fn lemma_other_strategies(
    before: JObfuscatorView,
    after: JObfuscatorView,
    name: ParamName,
    other: ParamName,
)
    requires
        other != name,
        !(name is MixCodeFlow) ==> after.mix_code_flow == before.mix_code_flow,
        !(name is RenameVariables) ==> after.rename_variables == before.rename_variables,
        !(name is RenameMethods) ==> after.rename_methods == before.rename_methods,
        !(name is ShuffleMethods) ==> after.shuffle_methods == before.shuffle_methods,
        !(name is IntsMathCrypt) ==> after.ints_math_crypt == before.ints_math_crypt,
        !(name is CryptStrings) ==> after.crypt_strings == before.crypt_strings,
        !(name is IntsToArrays) ==> after.ints_to_arrays == before.ints_to_arrays,
        !(name is DblsToArrays) ==> after.dbls_to_arrays == before.dbls_to_arrays,
        !(name is RemoveComments) ==> after.remove_comments == before.remove_comments,
        !(name is DblsMathCrypt) ==> after.dbls_math_crypt == before.dbls_math_crypt,
        !(name is StringCharVault) ==> after.string_char_vault == before.string_char_vault,
        !(name is IntsFromDoubleMath) ==> after.ints_from_double_math == before.ints_from_double_math,
        !(name is OpaqueMixerChain) ==> after.opaque_mixer_chain == before.opaque_mixer_chain,
        !(name is ComplexifyBooleans) ==> after.complexify_booleans == before.complexify_booleans,
        !(name is TryFinallyNoise) ==> after.try_finally_noise == before.try_finally_noise,
        !(name is ArrayIntCrypt) ==> after.array_int_crypt == before.array_int_crypt,
        !(name is ArrayCharCrypt) ==> after.array_char_crypt == before.array_char_crypt,
        !(name is ArrayDoubleCrypt) ==> after.array_double_crypt == before.array_double_crypt,
        !(name is ArrayStringCrypt) ==> after.array_string_crypt == before.array_string_crypt,
    ensures
        after.strategy_on(other) == before.strategy_on(other),
{
    reveal(JObfuscatorView::strategy_on);
}

/// Switching one strategy leaves every other strategy as it was.
pub proof fn law_with_strategy_others(cfg: JObfuscatorView, name: ParamName, on: bool, other: ParamName)
    requires
        other != name,
    ensures
        cfg.with_strategy(name, on).strategy_on(other) == cfg.strategy_on(other),
{
    lemma_keeps_mix_code_flow(cfg, name, on);
    lemma_keeps_rename_variables(cfg, name, on);
    lemma_keeps_rename_methods(cfg, name, on);
    lemma_keeps_shuffle_methods(cfg, name, on);
    lemma_keeps_ints_math_crypt(cfg, name, on);
    lemma_keeps_crypt_strings(cfg, name, on);
    lemma_keeps_ints_to_arrays(cfg, name, on);
    lemma_keeps_dbls_to_arrays(cfg, name, on);
    lemma_keeps_remove_comments(cfg, name, on);
    lemma_keeps_dbls_math_crypt(cfg, name, on);
    lemma_keeps_string_char_vault(cfg, name, on);
    lemma_keeps_ints_from_double_math(cfg, name, on);
    lemma_keeps_opaque_mixer_chain(cfg, name, on);
    lemma_keeps_complexify_booleans(cfg, name, on);
    lemma_keeps_try_finally_noise(cfg, name, on);
    lemma_keeps_array_int_crypt(cfg, name, on);
    lemma_keeps_array_char_crypt(cfg, name, on);
    lemma_keeps_array_double_crypt(cfg, name, on);
    lemma_keeps_array_string_crypt(cfg, name, on);
    lemma_other_strategies(cfg, cfg.with_strategy(name, on), name, other);
}

/// Each strategy is read from its own field.
proof fn lemma_strategy_fields(v: JObfuscatorView)
    ensures
        v.strategy_on(ParamName::MixCodeFlow) == v.mix_code_flow,
        v.strategy_on(ParamName::RenameVariables) == v.rename_variables,
        v.strategy_on(ParamName::RenameMethods) == v.rename_methods,
        v.strategy_on(ParamName::ShuffleMethods) == v.shuffle_methods,
        v.strategy_on(ParamName::IntsMathCrypt) == v.ints_math_crypt,
        v.strategy_on(ParamName::CryptStrings) == v.crypt_strings,
        v.strategy_on(ParamName::IntsToArrays) == v.ints_to_arrays,
        v.strategy_on(ParamName::DblsToArrays) == v.dbls_to_arrays,
        v.strategy_on(ParamName::RemoveComments) == v.remove_comments,
        v.strategy_on(ParamName::DblsMathCrypt) == v.dbls_math_crypt,
        v.strategy_on(ParamName::StringCharVault) == v.string_char_vault,
        v.strategy_on(ParamName::IntsFromDoubleMath) == v.ints_from_double_math,
        v.strategy_on(ParamName::OpaqueMixerChain) == v.opaque_mixer_chain,
        v.strategy_on(ParamName::ComplexifyBooleans) == v.complexify_booleans,
        v.strategy_on(ParamName::TryFinallyNoise) == v.try_finally_noise,
        v.strategy_on(ParamName::ArrayIntCrypt) == v.array_int_crypt,
        v.strategy_on(ParamName::ArrayCharCrypt) == v.array_char_crypt,
        v.strategy_on(ParamName::ArrayDoubleCrypt) == v.array_double_crypt,
        v.strategy_on(ParamName::ArrayStringCrypt) == v.array_string_crypt,
{
    reveal(JObfuscatorView::strategy_on);
}

/// The switches in order, each with its field.
proof fn lemma_switch_at(cfg: JObfuscatorView)
    ensures
        cfg.switch_at(0) == (ParamName::MixCodeFlow, cfg.mix_code_flow),
        cfg.switch_at(1) == (ParamName::RenameVariables, cfg.rename_variables),
        cfg.switch_at(2) == (ParamName::RenameMethods, cfg.rename_methods),
        cfg.switch_at(3) == (ParamName::ShuffleMethods, cfg.shuffle_methods),
        cfg.switch_at(4) == (ParamName::IntsMathCrypt, cfg.ints_math_crypt),
        cfg.switch_at(5) == (ParamName::CryptStrings, cfg.crypt_strings),
        cfg.switch_at(6) == (ParamName::IntsToArrays, cfg.ints_to_arrays),
        cfg.switch_at(7) == (ParamName::DblsToArrays, cfg.dbls_to_arrays),
        cfg.switch_at(8) == (ParamName::RemoveComments, cfg.remove_comments),
        cfg.switch_at(9) == (ParamName::DblsMathCrypt, cfg.dbls_math_crypt),
        cfg.switch_at(10) == (ParamName::StringCharVault, cfg.string_char_vault),
        cfg.switch_at(11) == (ParamName::IntsFromDoubleMath, cfg.ints_from_double_math),
        cfg.switch_at(12) == (ParamName::OpaqueMixerChain, cfg.opaque_mixer_chain),
        cfg.switch_at(13) == (ParamName::ComplexifyBooleans, cfg.complexify_booleans),
        cfg.switch_at(14) == (ParamName::TryFinallyNoise, cfg.try_finally_noise),
        cfg.switch_at(15) == (ParamName::ArrayIntCrypt, cfg.array_int_crypt),
        cfg.switch_at(16) == (ParamName::ArrayCharCrypt, cfg.array_char_crypt),
        cfg.switch_at(17) == (ParamName::ArrayDoubleCrypt, cfg.array_double_crypt),
        cfg.switch_at(18) == (ParamName::ArrayStringCrypt, cfg.array_string_crypt),
{
    reveal(JObfuscatorView::switch_at);
}

/// Each strategy switch pairs a strategy with that strategy's own setting.
proof fn lemma_switch_settings(cfg: JObfuscatorView)
    ensures
        forall|j: int|
            0 <= j < cfg.strategy_switches().len() ==> (#[trigger] cfg.strategy_switches()[j]).1
                == cfg.strategy_on(cfg.strategy_switches()[j].0),
{
    lemma_switch_at(cfg);
    lemma_strategy_fields(cfg);
    let sw = cfg.strategy_switches();
    assert forall|j: int| 0 <= j < sw.len() implies (#[trigger] sw[j]).1 == cfg.strategy_on(sw[j].0) by {
        assert(sw[j] == cfg.switch_at(j));
        if j == 0 {
        } else if j == 1 {
        } else if j == 2 {
        } else if j == 3 {
        } else if j == 4 {
        } else if j == 5 {
        } else if j == 6 {
        } else if j == 7 {
        } else if j == 8 {
        } else if j == 9 {
        } else if j == 10 {
        } else if j == 11 {
        } else if j == 12 {
        } else if j == 13 {
        } else if j == 14 {
        } else if j == 15 {
        } else if j == 16 {
        } else if j == 17 {
        } else if j == 18 {
        }
    }
}

/// Every strategy has a switch: the one at its rank.
proof fn lemma_switch_of(cfg: JObfuscatorView, name: ParamName)
    requires
        name.is_strategy(),
    ensures
        0 <= strategy_rank(name) < cfg.strategy_switches().len(),
        cfg.strategy_switches()[strategy_rank(name)].0 == name,
{
    lemma_switch_at(cfg);
    let sw = cfg.strategy_switches();
    assert(sw[strategy_rank(name)] == cfg.switch_at(strategy_rank(name)));
    match name {
        ParamName::MixCodeFlow => {
            assert(strategy_rank(name) == 0);
        },
        ParamName::RenameVariables => {
            assert(strategy_rank(name) == 1);
        },
        ParamName::RenameMethods => {
            assert(strategy_rank(name) == 2);
        },
        ParamName::ShuffleMethods => {
            assert(strategy_rank(name) == 3);
        },
        ParamName::IntsMathCrypt => {
            assert(strategy_rank(name) == 4);
        },
        ParamName::CryptStrings => {
            assert(strategy_rank(name) == 5);
        },
        ParamName::IntsToArrays => {
            assert(strategy_rank(name) == 6);
        },
        ParamName::DblsToArrays => {
            assert(strategy_rank(name) == 7);
        },
        ParamName::RemoveComments => {
            assert(strategy_rank(name) == 8);
        },
        ParamName::DblsMathCrypt => {
            assert(strategy_rank(name) == 9);
        },
        ParamName::StringCharVault => {
            assert(strategy_rank(name) == 10);
        },
        ParamName::IntsFromDoubleMath => {
            assert(strategy_rank(name) == 11);
        },
        ParamName::OpaqueMixerChain => {
            assert(strategy_rank(name) == 12);
        },
        ParamName::ComplexifyBooleans => {
            assert(strategy_rank(name) == 13);
        },
        ParamName::TryFinallyNoise => {
            assert(strategy_rank(name) == 14);
        },
        ParamName::ArrayIntCrypt => {
            assert(strategy_rank(name) == 15);
        },
        ParamName::ArrayCharCrypt => {
            assert(strategy_rank(name) == 16);
        },
        ParamName::ArrayDoubleCrypt => {
            assert(strategy_rank(name) == 17);
        },
        ParamName::ArrayStringCrypt => {
            assert(strategy_rank(name) == 18);
        },
        _ => {},
    }
}

/// Every request asks for a strategy, with the value `"1"`, exactly when the
/// configuration has that strategy switched on.
pub proof fn law_strategy_sent_iff_on(
    cfg: JObfuscatorView,
    command: Seq<char>,
    source: Option<Seq<char>>,
    name: ParamName,
)
    requires
        name.is_strategy(),
    ensures
        (exists|i: int|
            0 <= i < cfg.request_params(command, source).len() && #[trigger] cfg.request_params(
                command,
                source,
            )[i] == (name, "1"@)) <==> cfg.strategy_on(name),
        forall|i: int|
            0 <= i < cfg.request_params(command, source).len() && (#[trigger] cfg.request_params(
                command,
                source,
            )[i]).0 == name ==> cfg.strategy_on(name),
{
    let params = cfg.request_params(command, source);
    let sw = cfg.strategy_switches();
    law_strategy_params(cfg, command, source);
    lemma_switch_settings(cfg);
    lemma_switch_of(cfg, name);
    if cfg.strategy_on(name) {
        let j = strategy_rank(name);
        assert(sw[j] == (name, true));
    }
    assert forall|i: int| 0 <= i < params.len() && (#[trigger] params[i]).0 == name implies cfg.strategy_on(
        name,
    ) by {
        let j = choose|j: int| 0 <= j < sw.len() && #[trigger] sw[j] == (params[i].0, true);
    }
}

/// Every request starts with the command it was built for, whatever the
/// configuration and whether or not it carries a source.
pub proof fn law_command_first(cfg: JObfuscatorView, command: Seq<char>, source: Option<Seq<char>>)
    ensures
        cfg.request_params(command, source).len() > 0,
        cfg.request_params(command, source)[0] == (ParamName::Command, command),
        forall|i: int|
            0 < i < cfg.request_params(command, source).len() ==> (#[trigger] cfg.request_params(
                command,
                source,
            )[i]).0 != ParamName::Command,
{
    law_request_names_distinct(cfg, command, source);
    let params = cfg.request_params(command, source);
    assert(params[0] == (ParamName::Command, command));
    assert forall|i: int| 0 < i < params.len() implies (#[trigger] params[i]).0 != ParamName::Command by {
        assert(params[0].0 != params[i].0);
    }
}

/// Unpacking a text gives exactly what the service's compressed output
/// stands for: the Base64 decoding of the text, inflated as a zlib stream
/// (whichever compressor made it), and nothing where either step fails.
pub proof fn law_unpacked_text(packed: Seq<char>)
    ensures
        base64_decoded(packed) is None ==> unpacked_text(packed) is None,
        forall|stream: Seq<u8>|
            #[trigger] base64_decoded(packed) == Some(stream) ==> unpacked_text(packed)
                == zlib_decompressed_text(stream),
{
}

/// With compression enabled, a successful reply with a non-empty output that
/// Base64-decodes to a zlib stream of the text `t` (made by any compressor)
/// yields the reply with the output `t`: as the result where asked for, and
/// to be encoded as JSON otherwise.
pub proof fn law_unpacked_reply(
    cfg: JObfuscatorView,
    text: Seq<char>,
    reply: JObfuscatorResultView,
    return_as_object: bool,
    stream: Seq<u8>,
    t: Seq<char>,
)
    requires
        text.len() > 0,
        cfg.enable_compression,
        reply.error == 0,
        reply.output matches Some(out) && out.len() > 0 && base64_decoded(out) == Some(stream),
        zlib_decompressed_text(stream) == Some(t),
    ensures
        cfg.reply_for(text, Some(reply), return_as_object) == (if return_as_object {
            ReplyView::Deliver(JObfuscatorResponseView::Object(reply.with_output(t)))
        } else {
            ReplyView::Encode(reply.with_output(t))
        }),
        reply.with_output(t).output == Some(t),
        reply.with_output(t).error == reply.error,
        reply.with_output(t).demo == reply.demo,
        reply.with_output(t).credits_left == reply.credits_left,
        reply.with_output(t).credits_total == reply.credits_total,
        reply.with_output(t).expired == reply.expired,
        reply.with_output(t).string_limit == reply.string_limit,
{
}

/// Switching compression changes compression alone: the key, comment
/// stripping and every strategy setting stay as they were.
pub proof fn law_with_compression(cfg: JObfuscatorView, on: bool)
    ensures
        cfg.with_compression(on).enable_compression == on,
        cfg.with_compression(on).api_key == cfg.api_key,
        cfg.with_compression(on).mix_code_flow == cfg.mix_code_flow,
        cfg.with_compression(on).rename_variables == cfg.rename_variables,
        cfg.with_compression(on).rename_methods == cfg.rename_methods,
        cfg.with_compression(on).shuffle_methods == cfg.shuffle_methods,
        cfg.with_compression(on).ints_math_crypt == cfg.ints_math_crypt,
        cfg.with_compression(on).crypt_strings == cfg.crypt_strings,
        cfg.with_compression(on).ints_to_arrays == cfg.ints_to_arrays,
        cfg.with_compression(on).dbls_to_arrays == cfg.dbls_to_arrays,
        cfg.with_compression(on).remove_comments == cfg.remove_comments,
        cfg.with_compression(on).dbls_math_crypt == cfg.dbls_math_crypt,
        cfg.with_compression(on).string_char_vault == cfg.string_char_vault,
        cfg.with_compression(on).ints_from_double_math == cfg.ints_from_double_math,
        cfg.with_compression(on).opaque_mixer_chain == cfg.opaque_mixer_chain,
        cfg.with_compression(on).complexify_booleans == cfg.complexify_booleans,
        cfg.with_compression(on).try_finally_noise == cfg.try_finally_noise,
        cfg.with_compression(on).array_int_crypt == cfg.array_int_crypt,
        cfg.with_compression(on).array_char_crypt == cfg.array_char_crypt,
        cfg.with_compression(on).array_double_crypt == cfg.array_double_crypt,
        cfg.with_compression(on).array_string_crypt == cfg.array_string_crypt,
{
}

} // verus!
