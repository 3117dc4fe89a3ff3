//! The client's configuration, the parameters it sends with each command and
//! what it makes of the service's replies.
use crate::codec::{
    base64_decoded, pack_text, packed_text, text_view, unpack_text, unpacked_text,
    zlib_decompressed_text,
};
use crate::response::{
    JObfuscatorResponse, JObfuscatorResponseView, JObfuscatorResult, JObfuscatorResultView, Reply,
    ReplyView, result_view,
};
use vstd::prelude::*;

verus! {

/// The name of a parameter of a request to the service.
#[derive(Debug, Clone, Copy, PartialEq, Eq, Structural)]
pub enum ParamName {
    Command,
    Source,
    Key,
    MixCodeFlow,
    RenameVariables,
    RenameMethods,
    ShuffleMethods,
    IntsMathCrypt,
    CryptStrings,
    IntsToArrays,
    DblsToArrays,
    RemoveComments,
    DblsMathCrypt,
    StringCharVault,
    IntsFromDoubleMath,
    OpaqueMixerChain,
    ComplexifyBooleans,
    TryFinallyNoise,
    ArrayIntCrypt,
    ArrayCharCrypt,
    ArrayDoubleCrypt,
    ArrayStringCrypt,
    Compression,
}

impl ParamName {
    /// The name under which the parameter is sent.
    pub open spec fn wire_name(self) -> Seq<char> {
        match self {
            ParamName::Command => "command"@,
            ParamName::Source => "source"@,
            ParamName::Key => "key"@,
            ParamName::MixCodeFlow => "mix_code_flow"@,
            ParamName::RenameVariables => "rename_variables"@,
            ParamName::RenameMethods => "rename_methods"@,
            ParamName::ShuffleMethods => "shuffle_methods"@,
            ParamName::IntsMathCrypt => "ints_math_crypt"@,
            ParamName::CryptStrings => "crypt_strings"@,
            ParamName::IntsToArrays => "ints_to_arrays"@,
            ParamName::DblsToArrays => "dbls_to_arrays"@,
            ParamName::RemoveComments => "remove_comments"@,
            ParamName::DblsMathCrypt => "dbls_math_crypt"@,
            ParamName::StringCharVault => "string_char_vault"@,
            ParamName::IntsFromDoubleMath => "ints_from_double_math"@,
            ParamName::OpaqueMixerChain => "opaque_mixer_chain"@,
            ParamName::ComplexifyBooleans => "complexify_booleans"@,
            ParamName::TryFinallyNoise => "try_finally_noise"@,
            ParamName::ArrayIntCrypt => "array_int_crypt"@,
            ParamName::ArrayCharCrypt => "array_char_crypt"@,
            ParamName::ArrayDoubleCrypt => "array_double_crypt"@,
            ParamName::ArrayStringCrypt => "array_string_crypt"@,
            ParamName::Compression => "compression"@,
        }
    }

    /// Whether the parameter switches an obfuscation strategy on.
    pub open spec fn is_strategy(self) -> bool {
        !(self is Command || self is Source || self is Key || self is Compression)
    }

    /// The name under which the parameter is sent.
    pub fn as_str(&self) -> (s: &'static str)
        ensures
            s@ == self.wire_name(),
    {
        match self {
            ParamName::Command => "command",
            ParamName::Source => "source",
            ParamName::Key => "key",
            ParamName::MixCodeFlow => "mix_code_flow",
            ParamName::RenameVariables => "rename_variables",
            ParamName::RenameMethods => "rename_methods",
            ParamName::ShuffleMethods => "shuffle_methods",
            ParamName::IntsMathCrypt => "ints_math_crypt",
            ParamName::CryptStrings => "crypt_strings",
            ParamName::IntsToArrays => "ints_to_arrays",
            ParamName::DblsToArrays => "dbls_to_arrays",
            ParamName::RemoveComments => "remove_comments",
            ParamName::DblsMathCrypt => "dbls_math_crypt",
            ParamName::StringCharVault => "string_char_vault",
            ParamName::IntsFromDoubleMath => "ints_from_double_math",
            ParamName::OpaqueMixerChain => "opaque_mixer_chain",
            ParamName::ComplexifyBooleans => "complexify_booleans",
            ParamName::TryFinallyNoise => "try_finally_noise",
            ParamName::ArrayIntCrypt => "array_int_crypt",
            ParamName::ArrayCharCrypt => "array_char_crypt",
            ParamName::ArrayDoubleCrypt => "array_double_crypt",
            ParamName::ArrayStringCrypt => "array_string_crypt",
            ParamName::Compression => "compression",
        }
    }
}

/// Request parameters with their values taken as character sequences.
pub open spec fn params_view(params: Seq<(ParamName, String)>) -> Seq<(ParamName, Seq<char>)> {
    params.map_values(|p: (ParamName, String)| (p.0, p.1@))
}

/// The view of optional request parameters.
pub open spec fn opt_params_view(params: Option<Vec<(ParamName, String)>>) -> Option<
    Seq<(ParamName, Seq<char>)>,
> {
    match params {
        Some(p) => Some(params_view(p@)),
        None => None,
    }
}

/// No parameter name occurs twice.
pub open spec fn names_distinct(params: Seq<(ParamName, Seq<char>)>) -> bool {
    forall|i: int, j: int|
        0 <= i < j < params.len() ==> #[trigger] params[i].0 != #[trigger] params[j].0
}

/// The parameters that switch on the strategies marked `true`, in order,
/// each with the value `"1"`.
pub open spec fn enabled_params(switches: Seq<(ParamName, bool)>) -> Seq<(ParamName, Seq<char>)>
    decreases switches.len(),
{
    if switches.len() == 0 {
        seq![]
    } else {
        let rest = enabled_params(switches.drop_last());
        if switches.last().1 {
            rest.push((switches.last().0, "1"@))
        } else {
            rest
        }
    }
}

/// JObfuscator Web API client configuration.
#[derive(Debug, Clone)]
pub struct JObfuscator {
    api_key: Option<String>,
    // Whether to request comment stripping (not exposed; the product default).
    remove_comments: bool,
    /// Should the source code be compressed.
    pub enable_compression: bool,
    /// Change linear code execution flow to non-linear version.
    pub mix_code_flow: bool,
    /// Rename variable names to random string values.
    pub rename_variables: bool,
    /// Rename method names to random string values.
    pub rename_methods: bool,
    /// Shuffle methods order in the output source.
    pub shuffle_methods: bool,
    /// Encrypt integers using more than 15 floating point math functions from the java.lang.Math.* class.
    pub ints_math_crypt: bool,
    /// Encrypt strings using polymorphic encryption algorithms.
    pub crypt_strings: bool,
    /// For each method, extract all possible integers from the code and store them in an array.
    pub ints_to_arrays: bool,
    /// For each method, extract all possible doubles from the code and store them in an array.
    pub dbls_to_arrays: bool,
    /// Encrypt doubles using floating-point math functions from `java.lang.Math`.
    pub dbls_math_crypt: bool,
    /// Store string material in a generated char vault.
    pub string_char_vault: bool,
    /// Encode integer literals using double-based math expressions.
    pub ints_from_double_math: bool,
    /// Apply opaque mixer chain obfuscation.
    pub opaque_mixer_chain: bool,
    /// Replace boolean sub-expressions with harder-to-read equivalents.
    pub complexify_booleans: bool,
    /// Inject try/finally noise around code regions.
    pub try_finally_noise: bool,
    /// Obfuscate int array initializer content.
    pub array_int_crypt: bool,
    /// Obfuscate char array initializer content.
    pub array_char_crypt: bool,
    /// Obfuscate double array initializer content.
    pub array_double_crypt: bool,
    /// Obfuscate `String` array initializer content.
    pub array_string_crypt: bool,
}

/// The configuration of a `JObfuscator`, with the activation key taken as
/// characters.
pub struct JObfuscatorView {
    pub api_key: Option<Seq<char>>,
    pub remove_comments: bool,
    pub enable_compression: bool,
    pub mix_code_flow: bool,
    pub rename_variables: bool,
    pub rename_methods: bool,
    pub shuffle_methods: bool,
    pub ints_math_crypt: bool,
    pub crypt_strings: bool,
    pub ints_to_arrays: bool,
    pub dbls_to_arrays: bool,
    pub dbls_math_crypt: bool,
    pub string_char_vault: bool,
    pub ints_from_double_math: bool,
    pub opaque_mixer_chain: bool,
    pub complexify_booleans: bool,
    pub try_finally_noise: bool,
    pub array_int_crypt: bool,
    pub array_char_crypt: bool,
    pub array_double_crypt: bool,
    pub array_string_crypt: bool,
}

impl View for JObfuscator {
    type V = JObfuscatorView;

    closed spec fn view(&self) -> JObfuscatorView {
        JObfuscatorView {
            api_key: text_view(self.api_key),
            remove_comments: self.remove_comments,
            enable_compression: self.enable_compression,
            mix_code_flow: self.mix_code_flow,
            rename_variables: self.rename_variables,
            rename_methods: self.rename_methods,
            shuffle_methods: self.shuffle_methods,
            ints_math_crypt: self.ints_math_crypt,
            crypt_strings: self.crypt_strings,
            ints_to_arrays: self.ints_to_arrays,
            dbls_to_arrays: self.dbls_to_arrays,
            dbls_math_crypt: self.dbls_math_crypt,
            string_char_vault: self.string_char_vault,
            ints_from_double_math: self.ints_from_double_math,
            opaque_mixer_chain: self.opaque_mixer_chain,
            complexify_booleans: self.complexify_booleans,
            try_finally_noise: self.try_finally_noise,
            array_int_crypt: self.array_int_crypt,
            array_char_crypt: self.array_char_crypt,
            array_double_crypt: self.array_double_crypt,
            array_string_crypt: self.array_string_crypt,
        }
    }
}

impl JObfuscatorView {
    /// Whether the strategy `name` is switched on (`false` for a parameter
    /// that switches no strategy).
    #[verifier::opaque]
    pub open spec fn strategy_on(self, name: ParamName) -> bool {
        match name {
            ParamName::MixCodeFlow => self.mix_code_flow,
            ParamName::RenameVariables => self.rename_variables,
            ParamName::RenameMethods => self.rename_methods,
            ParamName::ShuffleMethods => self.shuffle_methods,
            ParamName::IntsMathCrypt => self.ints_math_crypt,
            ParamName::CryptStrings => self.crypt_strings,
            ParamName::IntsToArrays => self.ints_to_arrays,
            ParamName::DblsToArrays => self.dbls_to_arrays,
            ParamName::RemoveComments => self.remove_comments,
            ParamName::DblsMathCrypt => self.dbls_math_crypt,
            ParamName::StringCharVault => self.string_char_vault,
            ParamName::IntsFromDoubleMath => self.ints_from_double_math,
            ParamName::OpaqueMixerChain => self.opaque_mixer_chain,
            ParamName::ComplexifyBooleans => self.complexify_booleans,
            ParamName::TryFinallyNoise => self.try_finally_noise,
            ParamName::ArrayIntCrypt => self.array_int_crypt,
            ParamName::ArrayCharCrypt => self.array_char_crypt,
            ParamName::ArrayDoubleCrypt => self.array_double_crypt,
            ParamName::ArrayStringCrypt => self.array_string_crypt,
            _ => false,
        }
    }

    /// The configuration with the strategy `name` switched to `on`; comment
    /// stripping stays as it is, and so does everything for a parameter that
    /// switches no strategy.
    #[verifier::opaque]
    pub open spec fn with_strategy(self, name: ParamName, on: bool) -> JObfuscatorView {
        JObfuscatorView {
            api_key: self.api_key,
            remove_comments: self.remove_comments,
            enable_compression: self.enable_compression,
            mix_code_flow: if name is MixCodeFlow { on } else { self.mix_code_flow },
            rename_variables: if name is RenameVariables { on } else { self.rename_variables },
            rename_methods: if name is RenameMethods { on } else { self.rename_methods },
            shuffle_methods: if name is ShuffleMethods { on } else { self.shuffle_methods },
            ints_math_crypt: if name is IntsMathCrypt { on } else { self.ints_math_crypt },
            crypt_strings: if name is CryptStrings { on } else { self.crypt_strings },
            ints_to_arrays: if name is IntsToArrays { on } else { self.ints_to_arrays },
            dbls_to_arrays: if name is DblsToArrays { on } else { self.dbls_to_arrays },
            dbls_math_crypt: if name is DblsMathCrypt { on } else { self.dbls_math_crypt },
            string_char_vault: if name is StringCharVault { on } else { self.string_char_vault },
            ints_from_double_math: if name is IntsFromDoubleMath { on } else { self.ints_from_double_math },
            opaque_mixer_chain: if name is OpaqueMixerChain { on } else { self.opaque_mixer_chain },
            complexify_booleans: if name is ComplexifyBooleans { on } else { self.complexify_booleans },
            try_finally_noise: if name is TryFinallyNoise { on } else { self.try_finally_noise },
            array_int_crypt: if name is ArrayIntCrypt { on } else { self.array_int_crypt },
            array_char_crypt: if name is ArrayCharCrypt { on } else { self.array_char_crypt },
            array_double_crypt: if name is ArrayDoubleCrypt { on } else { self.array_double_crypt },
            array_string_crypt: if name is ArrayStringCrypt { on } else { self.array_string_crypt },
        }
    }

    /// The configuration with compression switched to `on`.
    pub open spec fn with_compression(self, on: bool) -> JObfuscatorView {
        JObfuscatorView { enable_compression: on, ..self }
    }

    /// The `i`-th strategy switch, in the order in which the parameters are
    /// sent (the last one for `i` past the end).
    #[verifier::opaque]
    pub open spec fn switch_at(self, i: int) -> (ParamName, bool) {
        if i == 0 {
            (ParamName::MixCodeFlow, self.mix_code_flow)
        } else if i == 1 {
            (ParamName::RenameVariables, self.rename_variables)
        } else if i == 2 {
            (ParamName::RenameMethods, self.rename_methods)
        } else if i == 3 {
            (ParamName::ShuffleMethods, self.shuffle_methods)
        } else if i == 4 {
            (ParamName::IntsMathCrypt, self.ints_math_crypt)
        } else if i == 5 {
            (ParamName::CryptStrings, self.crypt_strings)
        } else if i == 6 {
            (ParamName::IntsToArrays, self.ints_to_arrays)
        } else if i == 7 {
            (ParamName::DblsToArrays, self.dbls_to_arrays)
        } else if i == 8 {
            (ParamName::RemoveComments, self.remove_comments)
        } else if i == 9 {
            (ParamName::DblsMathCrypt, self.dbls_math_crypt)
        } else if i == 10 {
            (ParamName::StringCharVault, self.string_char_vault)
        } else if i == 11 {
            (ParamName::IntsFromDoubleMath, self.ints_from_double_math)
        } else if i == 12 {
            (ParamName::OpaqueMixerChain, self.opaque_mixer_chain)
        } else if i == 13 {
            (ParamName::ComplexifyBooleans, self.complexify_booleans)
        } else if i == 14 {
            (ParamName::TryFinallyNoise, self.try_finally_noise)
        } else if i == 15 {
            (ParamName::ArrayIntCrypt, self.array_int_crypt)
        } else if i == 16 {
            (ParamName::ArrayCharCrypt, self.array_char_crypt)
        } else if i == 17 {
            (ParamName::ArrayDoubleCrypt, self.array_double_crypt)
        } else {
            (ParamName::ArrayStringCrypt, self.array_string_crypt)
        }
    }

    /// Every strategy switch, in the order in which the parameters are sent.
    pub open spec fn strategy_switches(self) -> Seq<(ParamName, bool)> {
        Seq::new(19, |i: int| self.switch_at(i))
    }

    /// The activation key parameter: sent when a non-empty key was given.
    pub open spec fn key_params(self) -> Seq<(ParamName, Seq<char>)> {
        match self.api_key {
            Some(key) => if key.len() > 0 {
                seq![(ParamName::Key, key)]
            } else {
                seq![]
            },
            None => seq![],
        }
    }

    /// The source text as it is sent: packed when compression is enabled,
    /// verbatim otherwise.
    pub open spec fn source_on_wire(self, source: Seq<char>) -> Seq<char> {
        if self.enable_compression {
            packed_text(source)
        } else {
            source
        }
    }

    /// The parameters of a request for `command`, with the Java `source`
    /// where the command takes one.
    pub open spec fn request_params(self, command: Seq<char>, source: Option<Seq<char>>) -> Seq<
        (ParamName, Seq<char>),
    > {
        let options = self.key_params() + enabled_params(self.strategy_switches());
        match source {
            None => seq![(ParamName::Command, command)] + options,
            Some(text) => seq![
                (ParamName::Command, command),
                (ParamName::Source, self.source_on_wire(text)),
            ] + options + (if self.enable_compression {
                seq![(ParamName::Compression, "1"@)]
            } else {
                seq![]
            }),
        }
    }


    /// Whether the output of a reply is to be unpacked: compression is
    /// enabled, the reply reports success and carries a non-empty output.
    pub open spec fn should_unpack(self, reply: JObfuscatorResultView) -> bool {
        &&& self.enable_compression
        &&& reply.error == JObfuscator::ERROR_SUCCESS
        &&& reply.output matches Some(out) && out.len() > 0
    }

    /// What becomes of a reply whose output was unpacked to `text`: the
    /// result itself, or the result to be encoded as JSON.
    pub open spec fn unpacked_reply(
        reply: JObfuscatorResultView,
        text: Seq<char>,
        return_as_object: bool,
    ) -> ReplyView {
        if return_as_object {
            ReplyView::Deliver(JObfuscatorResponseView::Object(reply.with_output(text)))
        } else {
            ReplyView::Encode(reply.with_output(text))
        }
    }

    /// What becomes of the body `text` of a reply of the service that parses
    /// as `parsed` (`None` where it is not a reply).
    pub open spec fn reply_for(
        self,
        text: Seq<char>,
        parsed: Option<JObfuscatorResultView>,
        return_as_object: bool,
    ) -> ReplyView {
        if text.len() == 0 {
            ReplyView::Nothing
        } else {
            match parsed {
                None => ReplyView::Nothing,
                Some(reply) => if self.should_unpack(reply) {
                    match unpacked_text(reply.output->0) {
                        None => ReplyView::Nothing,
                        Some(out) => Self::unpacked_reply(reply, out, return_as_object),
                    }
                } else if return_as_object {
                    ReplyView::Deliver(JObfuscatorResponseView::Object(reply))
                } else {
                    ReplyView::Deliver(JObfuscatorResponseView::Json(text))
                },
            }
        }
    }
}

/// `with_strategy`, field by field.
proof fn lemma_with_strategy_unfold(before: JObfuscatorView, name: ParamName, on: bool)
    ensures
        before.with_strategy(name, on).api_key == before.api_key,
        before.with_strategy(name, on).remove_comments == before.remove_comments,
        before.with_strategy(name, on).enable_compression == before.enable_compression,
        before.with_strategy(name, on).mix_code_flow == if name is MixCodeFlow {
            on
        } else {
            before.mix_code_flow
        },
        before.with_strategy(name, on).rename_variables == if name is RenameVariables {
            on
        } else {
            before.rename_variables
        },
        before.with_strategy(name, on).rename_methods == if name is RenameMethods {
            on
        } else {
            before.rename_methods
        },
        before.with_strategy(name, on).shuffle_methods == if name is ShuffleMethods {
            on
        } else {
            before.shuffle_methods
        },
        before.with_strategy(name, on).ints_math_crypt == if name is IntsMathCrypt {
            on
        } else {
            before.ints_math_crypt
        },
        before.with_strategy(name, on).crypt_strings == if name is CryptStrings {
            on
        } else {
            before.crypt_strings
        },
        before.with_strategy(name, on).ints_to_arrays == if name is IntsToArrays {
            on
        } else {
            before.ints_to_arrays
        },
        before.with_strategy(name, on).dbls_to_arrays == if name is DblsToArrays {
            on
        } else {
            before.dbls_to_arrays
        },
        before.with_strategy(name, on).dbls_math_crypt == if name is DblsMathCrypt {
            on
        } else {
            before.dbls_math_crypt
        },
        before.with_strategy(name, on).string_char_vault == if name is StringCharVault {
            on
        } else {
            before.string_char_vault
        },
        before.with_strategy(name, on).ints_from_double_math == if name is IntsFromDoubleMath {
            on
        } else {
            before.ints_from_double_math
        },
        before.with_strategy(name, on).opaque_mixer_chain == if name is OpaqueMixerChain {
            on
        } else {
            before.opaque_mixer_chain
        },
        before.with_strategy(name, on).complexify_booleans == if name is ComplexifyBooleans {
            on
        } else {
            before.complexify_booleans
        },
        before.with_strategy(name, on).try_finally_noise == if name is TryFinallyNoise {
            on
        } else {
            before.try_finally_noise
        },
        before.with_strategy(name, on).array_int_crypt == if name is ArrayIntCrypt {
            on
        } else {
            before.array_int_crypt
        },
        before.with_strategy(name, on).array_char_crypt == if name is ArrayCharCrypt {
            on
        } else {
            before.array_char_crypt
        },
        before.with_strategy(name, on).array_double_crypt == if name is ArrayDoubleCrypt {
            on
        } else {
            before.array_double_crypt
        },
        before.with_strategy(name, on).array_string_crypt == if name is ArrayStringCrypt {
            on
        } else {
            before.array_string_crypt
        },
{
    reveal(JObfuscatorView::with_strategy);
}

impl JObfuscator {
    /// Default JObfuscator WebApi endpoint.
    pub const API_URL: &'static str = "https://www.pelock.com/api/jobfuscator/v1";

    /// Success.
    pub const ERROR_SUCCESS: i64 = 0;

    /// Invalid size for source code (it's 1500 bytes max. for demo version).
    pub const ERROR_INPUT_SIZE: i64 = 1;

    /// Input source is empty.
    pub const ERROR_INPUT: i64 = 2;

    /// Java source code parsing error.
    pub const ERROR_PARSING: i64 = 3;

    /// Java parsed code obfuscation error.
    pub const ERROR_OBFUSCATION: i64 = 4;

    /// An error occurred while generating output code.
    pub const ERROR_OUTPUT: i64 = 5;

    /// Initialize JObfuscator client.
    ///
    /// `api_key` — activation key for the service (it can be empty for demo mode).
    /// Every strategy, comment stripping and compression start enabled.
    pub fn new(api_key: Option<String>) -> (r: Self)
        ensures
            r@ == (JObfuscatorView {
                api_key: text_view(api_key),
                remove_comments: true,
                enable_compression: true,
                mix_code_flow: true,
                rename_variables: true,
                rename_methods: true,
                shuffle_methods: true,
                ints_math_crypt: true,
                crypt_strings: true,
                ints_to_arrays: true,
                dbls_to_arrays: true,
                dbls_math_crypt: true,
                string_char_vault: true,
                ints_from_double_math: true,
                opaque_mixer_chain: true,
                complexify_booleans: true,
                try_finally_noise: true,
                array_int_crypt: true,
                array_char_crypt: true,
                array_double_crypt: true,
                array_string_crypt: true,
            }),
    {
        JObfuscator {
            api_key,
            remove_comments: true,
            enable_compression: true,
            mix_code_flow: true,
            rename_variables: true,
            rename_methods: true,
            shuffle_methods: true,
            ints_math_crypt: true,
            crypt_strings: true,
            ints_to_arrays: true,
            dbls_to_arrays: true,
            dbls_math_crypt: true,
            string_char_vault: true,
            ints_from_double_math: true,
            opaque_mixer_chain: true,
            complexify_booleans: true,
            try_finally_noise: true,
            array_int_crypt: true,
            array_char_crypt: true,
            array_double_crypt: true,
            array_string_crypt: true,
        }
    }

    /// Whether the strategy `name` is switched on (`false` for a parameter
    /// that switches no strategy).
    pub fn strategy_enabled(&self, name: ParamName) -> (r: bool)
        ensures
            r == self@.strategy_on(name),
    {
        reveal(JObfuscatorView::strategy_on);
        match name {
            ParamName::MixCodeFlow => self.mix_code_flow,
            ParamName::RenameVariables => self.rename_variables,
            ParamName::RenameMethods => self.rename_methods,
            ParamName::ShuffleMethods => self.shuffle_methods,
            ParamName::IntsMathCrypt => self.ints_math_crypt,
            ParamName::CryptStrings => self.crypt_strings,
            ParamName::IntsToArrays => self.ints_to_arrays,
            ParamName::DblsToArrays => self.dbls_to_arrays,
            ParamName::RemoveComments => self.remove_comments,
            ParamName::DblsMathCrypt => self.dbls_math_crypt,
            ParamName::StringCharVault => self.string_char_vault,
            ParamName::IntsFromDoubleMath => self.ints_from_double_math,
            ParamName::OpaqueMixerChain => self.opaque_mixer_chain,
            ParamName::ComplexifyBooleans => self.complexify_booleans,
            ParamName::TryFinallyNoise => self.try_finally_noise,
            ParamName::ArrayIntCrypt => self.array_int_crypt,
            ParamName::ArrayCharCrypt => self.array_char_crypt,
            ParamName::ArrayDoubleCrypt => self.array_double_crypt,
            ParamName::ArrayStringCrypt => self.array_string_crypt,
            _ => false,
        }
    }

    /// This client with the strategy `name` switched to `on`. Comment
    /// stripping is not configurable, and a parameter that switches no
    /// strategy changes nothing.
    pub fn with_strategy(self, name: ParamName, on: bool) -> (r: Self)
        ensures
            r@ == self@.with_strategy(name, on),
    {
        let ghost before = self@;
        let r = JObfuscator {
            mix_code_flow: if matches!(name, ParamName::MixCodeFlow) { on } else { self.mix_code_flow },
            rename_variables: if matches!(name, ParamName::RenameVariables) { on } else { self.rename_variables },
            rename_methods: if matches!(name, ParamName::RenameMethods) { on } else { self.rename_methods },
            shuffle_methods: if matches!(name, ParamName::ShuffleMethods) { on } else { self.shuffle_methods },
            ints_math_crypt: if matches!(name, ParamName::IntsMathCrypt) { on } else { self.ints_math_crypt },
            crypt_strings: if matches!(name, ParamName::CryptStrings) { on } else { self.crypt_strings },
            ints_to_arrays: if matches!(name, ParamName::IntsToArrays) { on } else { self.ints_to_arrays },
            dbls_to_arrays: if matches!(name, ParamName::DblsToArrays) { on } else { self.dbls_to_arrays },
            dbls_math_crypt: if matches!(name, ParamName::DblsMathCrypt) { on } else { self.dbls_math_crypt },
            string_char_vault: if matches!(name, ParamName::StringCharVault) { on } else { self.string_char_vault },
            ints_from_double_math: if matches!(name, ParamName::IntsFromDoubleMath) { on } else { self.ints_from_double_math },
            opaque_mixer_chain: if matches!(name, ParamName::OpaqueMixerChain) { on } else { self.opaque_mixer_chain },
            complexify_booleans: if matches!(name, ParamName::ComplexifyBooleans) { on } else { self.complexify_booleans },
            try_finally_noise: if matches!(name, ParamName::TryFinallyNoise) { on } else { self.try_finally_noise },
            array_int_crypt: if matches!(name, ParamName::ArrayIntCrypt) { on } else { self.array_int_crypt },
            array_char_crypt: if matches!(name, ParamName::ArrayCharCrypt) { on } else { self.array_char_crypt },
            array_double_crypt: if matches!(name, ParamName::ArrayDoubleCrypt) { on } else { self.array_double_crypt },
            array_string_crypt: if matches!(name, ParamName::ArrayStringCrypt) { on } else { self.array_string_crypt },
            ..self
        };
        proof {
            lemma_with_strategy_unfold(before, name, on);
        }
        r
    }

    /// Whether the source code is compressed.
    pub fn compression_enabled(&self) -> (r: bool)
        ensures
            r == self@.enable_compression,
    {
        self.enable_compression
    }

    /// This client with compression of the source code switched to `on`.
    pub fn with_compression(self, on: bool) -> (r: Self)
        ensures
            r@ == self@.with_compression(on),
    {
        JObfuscator { enable_compression: on, ..self }
    }

    /// The `i`-th strategy switch.
    fn switch_at(&self, i: usize) -> (r: (ParamName, bool))
        requires
            i < 19,
        ensures
            r == self@.switch_at(i as int),
    {
        reveal(JObfuscatorView::switch_at);
        if i == 0 {
            (ParamName::MixCodeFlow, self.mix_code_flow)
        } else if i == 1 {
            (ParamName::RenameVariables, self.rename_variables)
        } else if i == 2 {
            (ParamName::RenameMethods, self.rename_methods)
        } else if i == 3 {
            (ParamName::ShuffleMethods, self.shuffle_methods)
        } else if i == 4 {
            (ParamName::IntsMathCrypt, self.ints_math_crypt)
        } else if i == 5 {
            (ParamName::CryptStrings, self.crypt_strings)
        } else if i == 6 {
            (ParamName::IntsToArrays, self.ints_to_arrays)
        } else if i == 7 {
            (ParamName::DblsToArrays, self.dbls_to_arrays)
        } else if i == 8 {
            (ParamName::RemoveComments, self.remove_comments)
        } else if i == 9 {
            (ParamName::DblsMathCrypt, self.dbls_math_crypt)
        } else if i == 10 {
            (ParamName::StringCharVault, self.string_char_vault)
        } else if i == 11 {
            (ParamName::IntsFromDoubleMath, self.ints_from_double_math)
        } else if i == 12 {
            (ParamName::OpaqueMixerChain, self.opaque_mixer_chain)
        } else if i == 13 {
            (ParamName::ComplexifyBooleans, self.complexify_booleans)
        } else if i == 14 {
            (ParamName::TryFinallyNoise, self.try_finally_noise)
        } else if i == 15 {
            (ParamName::ArrayIntCrypt, self.array_int_crypt)
        } else if i == 16 {
            (ParamName::ArrayCharCrypt, self.array_char_crypt)
        } else if i == 17 {
            (ParamName::ArrayDoubleCrypt, self.array_double_crypt)
        } else {
            (ParamName::ArrayStringCrypt, self.array_string_crypt)
        }
    }

    /// Builds the parameters of a request: the command, the source (packed
    /// when compression is enabled), the activation key, the enabled
    /// strategies and the compression marker.
    fn prepare_params(&self, command: &str, source: Option<&str>) -> (r: Vec<(ParamName, String)>)
        ensures
            params_view(r@) == self@.request_params(
                command@,
                match source {
                    Some(s) => Some(s@),
                    None => None,
                },
            ),
    {
        let ghost src_view: Option<Seq<char>> = match source {
            Some(s) => Some(s@),
            None => None,
        };
        let mut params: Vec<(ParamName, String)> = Vec::new();
        params.push((ParamName::Command, command.to_owned()));
        match source {
            Some(text) => {
                if self.enable_compression {
                    params.push((ParamName::Source, pack_text(text)));
                } else {
                    params.push((ParamName::Source, text.to_owned()));
                }
            },
            None => {},
        }
        let ghost head = params_view(params@);
        assert(head =~= match src_view {
            Some(t) => seq![(ParamName::Command, command@), (ParamName::Source, self@.source_on_wire(t))],
            None => seq![(ParamName::Command, command@)],
        });
        match &self.api_key {
            Some(key) => {
                if !key.as_str().is_empty() {
                    params.push((ParamName::Key, key.clone()));
                }
            },
            None => {},
        }
        assert(params_view(params@) =~= head + self@.key_params());
        let ghost switches = self@.strategy_switches();
        let mut i: usize = 0;
        while i < 19
            invariant
                i <= 19,
                switches == self@.strategy_switches(),
                params_view(params@) == head + self@.key_params() + enabled_params(
                    switches.take(i as int),
                ),
            decreases 19 - i,
        {
            let (name, on) = self.switch_at(i);
            let ghost before = params_view(params@);
            if on {
                params.push((name, "1".to_owned()));
            }
            proof {
                assert(switches.take(i + 1).drop_last() =~= switches.take(i as int));
                assert(params_view(params@) =~= if on {
                    before.push((name, "1"@))
                } else {
                    before
                });
            }
            i += 1;
        }
        assert(switches.take(switches.len() as int) =~= switches);
        let ghost body = params_view(params@);
        assert(body == head + self@.key_params() + enabled_params(self@.strategy_switches()));
        if self.enable_compression && source.is_some() {
            params.push((ParamName::Compression, "1".to_owned()));
            assert(params_view(params@) =~= body.push((ParamName::Compression, "1"@)));
        }
        proof {
            let options = self@.key_params() + enabled_params(self@.strategy_switches());
            match src_view {
                None => {
                    assert(params_view(params@) =~= seq![(ParamName::Command, command@)] + options);
                },
                Some(t) => {
                    let sent = self@.source_on_wire(t);
                    assert(params_view(params@) =~= seq![
                        (ParamName::Command, command@),
                        (ParamName::Source, sent),
                    ] + options + (if self.enable_compression {
                        seq![(ParamName::Compression, "1"@)]
                    } else {
                        seq![]
                    }));
                },
            }
        }
        params
    }

    /// The parameters of a login request: the service answers with the
    /// limits of the activation key.
    pub fn login_request(&self) -> (r: Vec<(ParamName, String)>)
        ensures
            params_view(r@) == self@.request_params("login"@, None),
            r@.len() > 0 && r@[0].0 == ParamName::Command && r@[0].1@ == "login"@,
    {
        let r = self.prepare_params("login", None);
        proof {
            let v = params_view(r@);
            assert(v.len() > 0);
            assert(v[0] == (ParamName::Command, "login"@));
            assert(v[0] == (r@[0].0, r@[0].1@));
        }
        r
    }

    /// The parameters of a request to obfuscate the Java source
    /// `java_source` (an empty source is sent too).
    pub fn obfuscate_request(&self, java_source: &str) -> (r: Vec<(ParamName, String)>)
        ensures
            params_view(r@) == self@.request_params("obfuscate"@, Some(java_source@)),
            r@.len() > 0 && r@[0].0 == ParamName::Command && r@[0].1@ == "obfuscate"@,
    {
        let r = self.prepare_params("obfuscate", Some(java_source));
        proof {
            let v = params_view(r@);
            assert(v.len() > 0);
            assert(v[0] == (ParamName::Command, "obfuscate"@));
            assert(v[0] == (r@[0].0, r@[0].1@));
        }
        r
    }

    /// The parameters of a request to obfuscate a Java file whose contents
    /// are `file_contents`: none for an empty file.
    pub fn obfuscate_file_request(&self, file_contents: &str) -> (r: Option<
        Vec<(ParamName, String)>,
    >)
        ensures
            file_contents@.len() == 0 ==> r is None,
            file_contents@.len() > 0 ==> opt_params_view(r) == Some(self@.request_params(
                "obfuscate"@,
                Some(file_contents@),
            )),
    {
        if file_contents.is_empty() {
            None
        } else {
            Some(self.obfuscate_request(file_contents))
        }
    }

    /// Decides what a call yields from the body `response_text` of the
    /// service's reply and its parse `parsed` (`None` where the body is not a
    /// reply). An empty body or one that does not parse yields nothing. With
    /// compression enabled, a successful reply's non-empty output is unpacked
    /// (nothing where that fails). Then the call yields the result where
    /// `return_as_object` asks for it; otherwise the result encoded as JSON
    /// where the output was unpacked, and the body itself where it was not.
    ///
    /// With compression enabled, a successful reply whose output is the
    /// packed form of a text (as `pack_text` makes it, never empty) comes back
    /// with that text as its output.
    pub fn handle_response(
        &self,
        response_text: String,
        parsed: Option<JObfuscatorResult>,
        return_as_object: bool,
    ) -> (r: Reply)
        ensures
            r@ == self@.reply_for(response_text@, result_view(parsed), return_as_object),
            response_text@.len() > 0 && self@.enable_compression ==> (parsed matches Some(reply) ==> (
            reply.error == JObfuscator::ERROR_SUCCESS ==> forall|s: Seq<char>|
                #[trigger] packed_text(s).len() > 0 && reply@.output == Some(packed_text(s)) ==> r@
                    == JObfuscatorView::unpacked_reply(reply@, s, return_as_object))),
            response_text@.len() > 0 && self@.enable_compression ==> (parsed matches Some(reply) ==> (
            reply.error == JObfuscator::ERROR_SUCCESS ==> (reply@.output matches Some(out) ==> (out.len()
                > 0 ==> (base64_decoded(out) matches Some(stream) ==> (zlib_decompressed_text(stream) matches Some(
                t,
            ) ==> r@ == (if return_as_object {
                ReplyView::Deliver(JObfuscatorResponseView::Object(reply@.with_output(t)))
            } else {
                ReplyView::Encode(reply@.with_output(t))
            }))))))),
    {
        if response_text.as_str().is_empty() {
            return Reply::Nothing;
        }
        let mut reply = match parsed {
            Some(reply) => reply,
            None => {
                return Reply::Nothing;
            },
        };
        let ghost original = reply@;
        let unpack = self.enable_compression && reply.error == Self::ERROR_SUCCESS && match &reply.output {
            Some(out) => !out.as_str().is_empty(),
            None => false,
        };
        if unpack {
            let unpacked = match &reply.output {
                Some(out) => unpack_text(out.as_str()),
                None => None,
            };
            match unpacked {
                Some(text) => {
                    reply.output = Some(text);
                    assert(reply@ == original.with_output(reply.output->0@));
                    if return_as_object {
                        Reply::Deliver(JObfuscatorResponse::Object(reply))
                    } else {
                        Reply::Encode(reply)
                    }
                },
                None => Reply::Nothing,
            }
        } else if return_as_object {
            Reply::Deliver(JObfuscatorResponse::Object(reply))
        } else {
            Reply::Deliver(JObfuscatorResponse::Json(response_text))
        }
    }
}

} // verus!
