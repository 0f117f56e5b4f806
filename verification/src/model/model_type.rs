//! Model architecture types for zero-shot classification.

use vstd::prelude::*;
use crate::text::chars_eq;

verus! {

/// Model architecture type for zero-shot classification.
#[derive(Debug, Clone, Eq)]
pub enum ModelType {
    Bart,
    Bert,
    DistilBert,
    Deberta,
    DebertaV2,
    Roberta,
    XLMRoberta,
    Electra,
    Marian,
    MobileBert,
    T5,
    LongT5,
    Albert,
    XLNet,
    GPT2,
    GPTJ,
    OpenAiGpt,
    Reformer,
    ProphetNet,
    Longformer,
    Pegasus,
    GPTNeo,
    MBart,
    M2M100,
    NLLB,
    FNet,
    Custom(String),
}

impl Default for ModelType {
    fn default() -> (r: Self)
        ensures
            r == ModelType::Bart,
    {
        ModelType::Bart
    }
}

impl ModelType {
    /// The name of the model type; a custom type is named by its own text.
    pub open spec fn name_spec(&self) -> Seq<char> {
        match self {
            ModelType::Bart => "bart"@,
            ModelType::Bert => "bert"@,
            ModelType::DistilBert => "distilbert"@,
            ModelType::Deberta => "deberta"@,
            ModelType::DebertaV2 => "deberta_v2"@,
            ModelType::Roberta => "roberta"@,
            ModelType::XLMRoberta => "xlm_roberta"@,
            ModelType::Electra => "electra"@,
            ModelType::Marian => "marian"@,
            ModelType::MobileBert => "mobilebert"@,
            ModelType::T5 => "t5"@,
            ModelType::LongT5 => "longt5"@,
            ModelType::Albert => "albert"@,
            ModelType::XLNet => "xlnet"@,
            ModelType::GPT2 => "gpt2"@,
            ModelType::GPTJ => "gptj"@,
            ModelType::OpenAiGpt => "openai_gpt"@,
            ModelType::Reformer => "reformer"@,
            ModelType::ProphetNet => "prophetnet"@,
            ModelType::Longformer => "longformer"@,
            ModelType::Pegasus => "pegasus"@,
            ModelType::GPTNeo => "gpt_neo"@,
            ModelType::MBart => "mbart"@,
            ModelType::M2M100 => "m2m100"@,
            ModelType::NLLB => "nllb"@,
            ModelType::FNet => "fnet"@,
            ModelType::Custom(s) => s@,
        }
    }

    /// Position of the variant in the declaration; custom types come last.
    pub open spec fn rank_spec(&self) -> nat {
        match self {
            ModelType::Bart => 0,
            ModelType::Bert => 1,
            ModelType::DistilBert => 2,
            ModelType::Deberta => 3,
            ModelType::DebertaV2 => 4,
            ModelType::Roberta => 5,
            ModelType::XLMRoberta => 6,
            ModelType::Electra => 7,
            ModelType::Marian => 8,
            ModelType::MobileBert => 9,
            ModelType::T5 => 10,
            ModelType::LongT5 => 11,
            ModelType::Albert => 12,
            ModelType::XLNet => 13,
            ModelType::GPT2 => 14,
            ModelType::GPTJ => 15,
            ModelType::OpenAiGpt => 16,
            ModelType::Reformer => 17,
            ModelType::ProphetNet => 18,
            ModelType::Longformer => 19,
            ModelType::Pegasus => 20,
            ModelType::GPTNeo => 21,
            ModelType::MBart => 22,
            ModelType::M2M100 => 23,
            ModelType::NLLB => 24,
            ModelType::FNet => 25,
            ModelType::Custom(_) => 26,
        }
    }

    /// Equality as `==` decides it: same variant, and equal text for custom types.
    pub open spec fn same_spec(&self, other: &ModelType) -> bool {
        match (self, other) {
            (ModelType::Custom(a), ModelType::Custom(b)) => a@ == b@,
            _ => self.rank_spec() == other.rank_spec(),
        }
    }

    pub open spec fn is_encoder_only_spec(&self) -> bool {
        match self {
            ModelType::Bert | ModelType::DistilBert | ModelType::Deberta | ModelType::DebertaV2 | ModelType::Roberta | ModelType::XLMRoberta | ModelType::Electra | ModelType::MobileBert | ModelType::Albert | ModelType::Longformer | ModelType::FNet => true,
            _ => false,
        }
    }

    pub open spec fn is_decoder_only_spec(&self) -> bool {
        match self {
            ModelType::GPT2 | ModelType::GPTJ | ModelType::OpenAiGpt | ModelType::GPTNeo | ModelType::Reformer => true,
            _ => false,
        }
    }

    pub open spec fn is_encoder_decoder_spec(&self) -> bool {
        match self {
            ModelType::Bart | ModelType::MBart | ModelType::T5 | ModelType::LongT5 | ModelType::Marian | ModelType::Pegasus | ModelType::ProphetNet | ModelType::M2M100 | ModelType::NLLB => true,
            _ => false,
        }
    }

    pub open spec fn is_multilingual_spec(&self) -> bool {
        match self {
            ModelType::XLMRoberta | ModelType::MBart | ModelType::M2M100 | ModelType::NLLB => true,
            _ => false,
        }
    }

    pub open spec fn is_translation_spec(&self) -> bool {
        match self {
            ModelType::Marian | ModelType::M2M100 | ModelType::NLLB => true,
            _ => false,
        }
    }

    pub open spec fn is_summarization_spec(&self) -> bool {
        match self {
            ModelType::Pegasus | ModelType::Bart | ModelType::T5 | ModelType::LongT5 => true,
            _ => false,
        }
    }

    pub open spec fn supports_zero_shot_spec(&self) -> bool {
        match self {
            ModelType::Bart | ModelType::MBart | ModelType::Bert | ModelType::DistilBert | ModelType::Deberta | ModelType::DebertaV2 | ModelType::Roberta | ModelType::XLMRoberta | ModelType::Albert | ModelType::Longformer => true,
            _ => false,
        }
    }

    pub open spec fn supports_long_context_spec(&self) -> bool {
        match self {
            ModelType::Longformer | ModelType::LongT5 | ModelType::Reformer => true,
            _ => false,
        }
    }

    /// The built-in model type a lower-cased name denotes, if any.
    pub open spec fn known_lower_spec(s: Seq<char>) -> Option<ModelType> {
        if s == "bart"@ {
            Some(ModelType::Bart)
        } else if s == "bert"@ {
            Some(ModelType::Bert)
        } else if s == "distilbert"@ {
            Some(ModelType::DistilBert)
        } else if s == "deberta"@ {
            Some(ModelType::Deberta)
        } else if s == "deberta_v2"@ || s == "debertav2"@ {
            Some(ModelType::DebertaV2)
        } else if s == "roberta"@ {
            Some(ModelType::Roberta)
        } else if s == "xlm_roberta"@ || s == "xlmroberta"@ {
            Some(ModelType::XLMRoberta)
        } else if s == "electra"@ {
            Some(ModelType::Electra)
        } else if s == "marian"@ {
            Some(ModelType::Marian)
        } else if s == "mobilebert"@ {
            Some(ModelType::MobileBert)
        } else if s == "t5"@ {
            Some(ModelType::T5)
        } else if s == "longt5"@ {
            Some(ModelType::LongT5)
        } else if s == "albert"@ {
            Some(ModelType::Albert)
        } else if s == "xlnet"@ {
            Some(ModelType::XLNet)
        } else if s == "gpt2"@ {
            Some(ModelType::GPT2)
        } else if s == "gptj"@ || s == "gpt_j"@ {
            Some(ModelType::GPTJ)
        } else if s == "openai_gpt"@ || s == "openaigpt"@ {
            Some(ModelType::OpenAiGpt)
        } else if s == "reformer"@ {
            Some(ModelType::Reformer)
        } else if s == "prophetnet"@ {
            Some(ModelType::ProphetNet)
        } else if s == "longformer"@ {
            Some(ModelType::Longformer)
        } else if s == "pegasus"@ {
            Some(ModelType::Pegasus)
        } else if s == "gpt_neo"@ || s == "gptneo"@ {
            Some(ModelType::GPTNeo)
        } else if s == "mbart"@ {
            Some(ModelType::MBart)
        } else if s == "m2m100"@ {
            Some(ModelType::M2M100)
        } else if s == "nllb"@ {
            Some(ModelType::NLLB)
        } else if s == "fnet"@ {
            Some(ModelType::FNet)
        } else {
            None
        }
    }

    fn rank(&self) -> (r: u8)
        ensures
            r as nat == self.rank_spec(),
    {
        match self {
            ModelType::Bart => 0,
            ModelType::Bert => 1,
            ModelType::DistilBert => 2,
            ModelType::Deberta => 3,
            ModelType::DebertaV2 => 4,
            ModelType::Roberta => 5,
            ModelType::XLMRoberta => 6,
            ModelType::Electra => 7,
            ModelType::Marian => 8,
            ModelType::MobileBert => 9,
            ModelType::T5 => 10,
            ModelType::LongT5 => 11,
            ModelType::Albert => 12,
            ModelType::XLNet => 13,
            ModelType::GPT2 => 14,
            ModelType::GPTJ => 15,
            ModelType::OpenAiGpt => 16,
            ModelType::Reformer => 17,
            ModelType::ProphetNet => 18,
            ModelType::Longformer => 19,
            ModelType::Pegasus => 20,
            ModelType::GPTNeo => 21,
            ModelType::MBart => 22,
            ModelType::M2M100 => 23,
            ModelType::NLLB => 24,
            ModelType::FNet => 25,
            ModelType::Custom(_) => 26,
        }
    }

    /// Returns the string representation of the model type.
    pub fn as_str(&self) -> (r: &str)
        ensures
            r@ == self.name_spec(),
    {
        match self {
            ModelType::Bart => "bart",
            ModelType::Bert => "bert",
            ModelType::DistilBert => "distilbert",
            ModelType::Deberta => "deberta",
            ModelType::DebertaV2 => "deberta_v2",
            ModelType::Roberta => "roberta",
            ModelType::XLMRoberta => "xlm_roberta",
            ModelType::Electra => "electra",
            ModelType::Marian => "marian",
            ModelType::MobileBert => "mobilebert",
            ModelType::T5 => "t5",
            ModelType::LongT5 => "longt5",
            ModelType::Albert => "albert",
            ModelType::XLNet => "xlnet",
            ModelType::GPT2 => "gpt2",
            ModelType::GPTJ => "gptj",
            ModelType::OpenAiGpt => "openai_gpt",
            ModelType::Reformer => "reformer",
            ModelType::ProphetNet => "prophetnet",
            ModelType::Longformer => "longformer",
            ModelType::Pegasus => "pegasus",
            ModelType::GPTNeo => "gpt_neo",
            ModelType::MBart => "mbart",
            ModelType::M2M100 => "m2m100",
            ModelType::NLLB => "nllb",
            ModelType::FNet => "fnet",
            ModelType::Custom(s) => s.as_str(),
        }
    }

    /// Returns true if this is a encoder-only model (BERT-like architecture).
    pub fn is_encoder_only(&self) -> (b: bool)
        ensures
            b == self.is_encoder_only_spec(),
    {
        match self {
            ModelType::Bert | ModelType::DistilBert | ModelType::Deberta | ModelType::DebertaV2 | ModelType::Roberta | ModelType::XLMRoberta | ModelType::Electra | ModelType::MobileBert | ModelType::Albert | ModelType::Longformer | ModelType::FNet => true,
            _ => false,
        }
    }

    /// Returns true if this is a decoder-only model (GPT-like architecture).
    pub fn is_decoder_only(&self) -> (b: bool)
        ensures
            b == self.is_decoder_only_spec(),
    {
        match self {
            ModelType::GPT2 | ModelType::GPTJ | ModelType::OpenAiGpt | ModelType::GPTNeo | ModelType::Reformer => true,
            _ => false,
        }
    }

    /// Returns true if this is a encoder-decoder model (seq2seq architecture).
    pub fn is_encoder_decoder(&self) -> (b: bool)
        ensures
            b == self.is_encoder_decoder_spec(),
    {
        match self {
            ModelType::Bart | ModelType::MBart | ModelType::T5 | ModelType::LongT5 | ModelType::Marian | ModelType::Pegasus | ModelType::ProphetNet | ModelType::M2M100 | ModelType::NLLB => true,
            _ => false,
        }
    }

    /// Returns true if this is a model designed for multilingual use.
    pub fn is_multilingual(&self) -> (b: bool)
        ensures
            b == self.is_multilingual_spec(),
    {
        match self {
            ModelType::XLMRoberta | ModelType::MBart | ModelType::M2M100 | ModelType::NLLB => true,
            _ => false,
        }
    }

    /// Returns true if this is a model primarily designed for translation.
    pub fn is_translation(&self) -> (b: bool)
        ensures
            b == self.is_translation_spec(),
    {
        match self {
            ModelType::Marian | ModelType::M2M100 | ModelType::NLLB => true,
            _ => false,
        }
    }

    /// Returns true if this is a model primarily designed for summarization.
    pub fn is_summarization(&self) -> (b: bool)
        ensures
            b == self.is_summarization_spec(),
    {
        match self {
            ModelType::Pegasus | ModelType::Bart | ModelType::T5 | ModelType::LongT5 => true,
            _ => false,
        }
    }

    /// Returns true if this is a model that supports zero-shot classification via NLI.
    pub fn supports_zero_shot(&self) -> (b: bool)
        ensures
            b == self.supports_zero_shot_spec(),
    {
        match self {
            ModelType::Bart | ModelType::MBart | ModelType::Bert | ModelType::DistilBert | ModelType::Deberta | ModelType::DebertaV2 | ModelType::Roberta | ModelType::XLMRoberta | ModelType::Albert | ModelType::Longformer => true,
            _ => false,
        }
    }

    /// Returns true if this is a model that supports long context inputs.
    pub fn supports_long_context(&self) -> (b: bool)
        ensures
            b == self.supports_long_context_spec(),
    {
        match self {
            ModelType::Longformer | ModelType::LongT5 | ModelType::Reformer => true,
            _ => false,
        }
    }

    /// Returns true if this is a custom/unknown model type.
    pub fn is_custom(&self) -> (b: bool)
        ensures
            b == (self is Custom),
    {
        match self {
            ModelType::Custom(_) => true,
            _ => false,
        }
    }

    /// The model type a lower-cased name denotes: a built-in type for its
    /// names, a custom type holding the name otherwise.
    pub open spec fn parses_to(s: Seq<char>, m: ModelType) -> bool {
        match ModelType::known_lower_spec(s) {
            Some(k) => m == k,
            None => m matches ModelType::Custom(t) && t@ == s,
        }
    }

    /// The model type a name denotes after lower-casing, as `FromStr` reads it.
    pub fn from_lowercase(name: String) -> (r: ModelType)
        ensures
            ModelType::parses_to(name@, r),
    {
        let v = crate::text::chars_of(name.as_str());
        if chars_eq(&v, "bart") {
            ModelType::Bart
        } else if chars_eq(&v, "bert") {
            ModelType::Bert
        } else if chars_eq(&v, "distilbert") {
            ModelType::DistilBert
        } else if chars_eq(&v, "deberta") {
            ModelType::Deberta
        } else if chars_eq(&v, "deberta_v2") || chars_eq(&v, "debertav2") {
            ModelType::DebertaV2
        } else if chars_eq(&v, "roberta") {
            ModelType::Roberta
        } else if chars_eq(&v, "xlm_roberta") || chars_eq(&v, "xlmroberta") {
            ModelType::XLMRoberta
        } else if chars_eq(&v, "electra") {
            ModelType::Electra
        } else if chars_eq(&v, "marian") {
            ModelType::Marian
        } else if chars_eq(&v, "mobilebert") {
            ModelType::MobileBert
        } else if chars_eq(&v, "t5") {
            ModelType::T5
        } else if chars_eq(&v, "longt5") {
            ModelType::LongT5
        } else if chars_eq(&v, "albert") {
            ModelType::Albert
        } else if chars_eq(&v, "xlnet") {
            ModelType::XLNet
        } else if chars_eq(&v, "gpt2") {
            ModelType::GPT2
        } else if chars_eq(&v, "gptj") || chars_eq(&v, "gpt_j") {
            ModelType::GPTJ
        } else if chars_eq(&v, "openai_gpt") || chars_eq(&v, "openaigpt") {
            ModelType::OpenAiGpt
        } else if chars_eq(&v, "reformer") {
            ModelType::Reformer
        } else if chars_eq(&v, "prophetnet") {
            ModelType::ProphetNet
        } else if chars_eq(&v, "longformer") {
            ModelType::Longformer
        } else if chars_eq(&v, "pegasus") {
            ModelType::Pegasus
        } else if chars_eq(&v, "gpt_neo") || chars_eq(&v, "gptneo") {
            ModelType::GPTNeo
        } else if chars_eq(&v, "mbart") {
            ModelType::MBart
        } else if chars_eq(&v, "m2m100") {
            ModelType::M2M100
        } else if chars_eq(&v, "nllb") {
            ModelType::NLLB
        } else if chars_eq(&v, "fnet") {
            ModelType::FNet
        } else {
            ModelType::Custom(name)
        }
    }

    /// Parses a model type name case-insensitively (Unicode lower-casing, as
    /// `str::to_lowercase`); names that are not built in become custom types
    /// holding the lower-cased name.
    pub fn parse(s: &str) -> (r: ModelType)
        ensures
            ModelType::parses_to(unicode_lower_of(s@), r),
            (forall|i: int| 0 <= i < s@.len() ==> #[trigger] s@[i] <= '\u{7F}') ==> ModelType::parses_to(
                crate::text::lower_spec(s@),
                r,
            ),
    {
        ModelType::from_lowercase(to_lowercase(s))
    }
}

impl PartialEq for ModelType {
    fn eq(&self, other: &Self) -> (r: bool) {
        match (self, other) {
            (ModelType::Custom(a), ModelType::Custom(b)) => a.eq(b),
            _ => self.rank() == other.rank(),
        }
    }
}

impl vstd::std_specs::cmp::PartialEqSpecImpl for ModelType {
    open spec fn obeys_eq_spec() -> bool {
        true
    }

    open spec fn eq_spec(&self, other: &Self) -> bool {
        self.same_spec(other)
    }
}

impl std::str::FromStr for ModelType {
    type Err = std::convert::Infallible;

    fn from_str(s: &str) -> (r: Result<Self, Self::Err>)
        ensures
            r matches Ok(m) && ModelType::parses_to(unicode_lower_of(s@), m),
    {
        Ok(ModelType::parse(s))
    }
}

/// What `str::to_lowercase` makes of a text (full Unicode lower-casing).
pub uninterp spec fn unicode_lower_of(s: Seq<char>) -> Seq<char>;

/// Calls `str::to_lowercase`. Trusted: the result is the named value
/// `unicode_lower_of(s)`, a function of the text alone; on ASCII text it is
/// the ASCII lower-casing (upper-case letters mapped to lower case, every
/// other character kept), as Unicode's lower-case mapping agrees with ASCII
/// there. What it does to other characters is not stated here.
#[verifier::external_body]
fn to_lowercase(s: &str) -> (r: String)
    ensures
        r@ == unicode_lower_of(s@),
        (forall|i: int| 0 <= i < s@.len() ==> #[trigger] s@[i] <= '\u{7F}') ==> r@ == crate::text::lower_spec(s@),
{
    s.to_lowercase()
}

/// Whether `s` is a non-empty text of lower-case ASCII letters, digits and
/// `_`.
pub open spec fn model_name_text(s: Seq<char>) -> bool {
    &&& s.len() > 0
    &&& forall|i: int| 0 <= i < s.len() ==> {
        let c = #[trigger] s[i];
        ('a' <= c && c <= 'z') || ('0' <= c && c <= '9') || c == '_'
    }
}

/// The name of a built-in model type reads back as that type, and is a
/// non-empty text of lower-case letters, digits and `_`; a custom type's name
/// is its text.
pub proof fn law_model_name_reads_back(m: ModelType)
    ensures
        m matches ModelType::Custom(t) ==> m.name_spec() == t@,
        !(m is Custom) ==> ModelType::known_lower_spec(m.name_spec()) == Some(m),
        !(m is Custom) ==> model_name_text(m.name_spec()),
{
    reveal_strlit("bart");
    reveal_strlit("bert");
    reveal_strlit("distilbert");
    reveal_strlit("deberta");
    reveal_strlit("deberta_v2");
    reveal_strlit("debertav2");
    reveal_strlit("roberta");
    reveal_strlit("xlm_roberta");
    reveal_strlit("xlmroberta");
    reveal_strlit("electra");
    reveal_strlit("marian");
    reveal_strlit("mobilebert");
    reveal_strlit("t5");
    reveal_strlit("longt5");
    reveal_strlit("albert");
    reveal_strlit("xlnet");
    reveal_strlit("gpt2");
    reveal_strlit("gptj");
    reveal_strlit("gpt_j");
    reveal_strlit("openai_gpt");
    reveal_strlit("openaigpt");
    reveal_strlit("reformer");
    reveal_strlit("prophetnet");
    reveal_strlit("longformer");
    reveal_strlit("pegasus");
    reveal_strlit("gpt_neo");
    reveal_strlit("gptneo");
    reveal_strlit("mbart");
    reveal_strlit("m2m100");
    reveal_strlit("nllb");
    reveal_strlit("fnet");
    match m {
        ModelType::Bart => {
            assert(model_name_text("bart"@));
        },
        ModelType::Bert => {
            assert("bert"@[1] != "bart"@[1]);
            assert(model_name_text("bert"@));
        },
        ModelType::DistilBert => {
            assert("distilbert"@.len() != "bart"@.len() && "distilbert"@.len() != "bert"@.len());
            assert(model_name_text("distilbert"@));
        },
        ModelType::Deberta => {
            assert("deberta"@.len() != "bart"@.len() && "deberta"@.len() != "bert"@.len() && "deberta"@.len() != "distilbert"@.len());
            assert(model_name_text("deberta"@));
        },
        ModelType::DebertaV2 => {
            assert("deberta_v2"@.len() != "bart"@.len() && "deberta_v2"@.len() != "bert"@.len() && "deberta_v2"@[1] != "distilbert"@[1] && "deberta_v2"@.len() != "deberta"@.len());
            assert(model_name_text("deberta_v2"@));
        },
        ModelType::Roberta => {
            assert("roberta"@.len() != "bart"@.len() && "roberta"@.len() != "bert"@.len() && "roberta"@.len() != "distilbert"@.len() && "roberta"@[0] != "deberta"@[0] && "roberta"@.len() != "deberta_v2"@.len() && "roberta"@.len() != "debertav2"@.len());
            assert(model_name_text("roberta"@));
        },
        ModelType::XLMRoberta => {
            assert("xlm_roberta"@.len() != "bart"@.len() && "xlm_roberta"@.len() != "bert"@.len() && "xlm_roberta"@.len() != "distilbert"@.len() && "xlm_roberta"@.len() != "deberta"@.len() && "xlm_roberta"@.len() != "deberta_v2"@.len() && "xlm_roberta"@.len() != "debertav2"@.len() && "xlm_roberta"@.len() != "roberta"@.len());
            assert(model_name_text("xlm_roberta"@));
        },
        ModelType::Electra => {
            assert("electra"@.len() != "bart"@.len() && "electra"@.len() != "bert"@.len() && "electra"@.len() != "distilbert"@.len() && "electra"@[0] != "deberta"@[0] && "electra"@.len() != "deberta_v2"@.len() && "electra"@.len() != "debertav2"@.len() && "electra"@[0] != "roberta"@[0] && "electra"@.len() != "xlm_roberta"@.len() && "electra"@.len() != "xlmroberta"@.len());
            assert(model_name_text("electra"@));
        },
        ModelType::Marian => {
            assert("marian"@.len() != "bart"@.len() && "marian"@.len() != "bert"@.len() && "marian"@.len() != "distilbert"@.len() && "marian"@.len() != "deberta"@.len() && "marian"@.len() != "deberta_v2"@.len() && "marian"@.len() != "debertav2"@.len() && "marian"@.len() != "roberta"@.len() && "marian"@.len() != "xlm_roberta"@.len() && "marian"@.len() != "xlmroberta"@.len() && "marian"@.len() != "electra"@.len());
            assert(model_name_text("marian"@));
        },
        ModelType::MobileBert => {
            assert("mobilebert"@.len() != "bart"@.len() && "mobilebert"@.len() != "bert"@.len() && "mobilebert"@[0] != "distilbert"@[0] && "mobilebert"@.len() != "deberta"@.len() && "mobilebert"@[0] != "deberta_v2"@[0] && "mobilebert"@.len() != "debertav2"@.len() && "mobilebert"@.len() != "roberta"@.len() && "mobilebert"@.len() != "xlm_roberta"@.len() && "mobilebert"@[0] != "xlmroberta"@[0] && "mobilebert"@.len() != "electra"@.len() && "mobilebert"@.len() != "marian"@.len());
            assert(model_name_text("mobilebert"@));
        },
        ModelType::T5 => {
            assert("t5"@.len() != "bart"@.len() && "t5"@.len() != "bert"@.len() && "t5"@.len() != "distilbert"@.len() && "t5"@.len() != "deberta"@.len() && "t5"@.len() != "deberta_v2"@.len() && "t5"@.len() != "debertav2"@.len() && "t5"@.len() != "roberta"@.len() && "t5"@.len() != "xlm_roberta"@.len() && "t5"@.len() != "xlmroberta"@.len() && "t5"@.len() != "electra"@.len() && "t5"@.len() != "marian"@.len() && "t5"@.len() != "mobilebert"@.len());
            assert(model_name_text("t5"@));
        },
        ModelType::LongT5 => {
            assert("longt5"@.len() != "bart"@.len() && "longt5"@.len() != "bert"@.len() && "longt5"@.len() != "distilbert"@.len() && "longt5"@.len() != "deberta"@.len() && "longt5"@.len() != "deberta_v2"@.len() && "longt5"@.len() != "debertav2"@.len() && "longt5"@.len() != "roberta"@.len() && "longt5"@.len() != "xlm_roberta"@.len() && "longt5"@.len() != "xlmroberta"@.len() && "longt5"@.len() != "electra"@.len() && "longt5"@[0] != "marian"@[0] && "longt5"@.len() != "mobilebert"@.len() && "longt5"@.len() != "t5"@.len());
            assert(model_name_text("longt5"@));
        },
        ModelType::Albert => {
            assert("albert"@.len() != "bart"@.len() && "albert"@.len() != "bert"@.len() && "albert"@.len() != "distilbert"@.len() && "albert"@.len() != "deberta"@.len() && "albert"@.len() != "deberta_v2"@.len() && "albert"@.len() != "debertav2"@.len() && "albert"@.len() != "roberta"@.len() && "albert"@.len() != "xlm_roberta"@.len() && "albert"@.len() != "xlmroberta"@.len() && "albert"@.len() != "electra"@.len() && "albert"@[0] != "marian"@[0] && "albert"@.len() != "mobilebert"@.len() && "albert"@.len() != "t5"@.len() && "albert"@[0] != "longt5"@[0]);
            assert(model_name_text("albert"@));
        },
        ModelType::XLNet => {
            assert("xlnet"@.len() != "bart"@.len() && "xlnet"@.len() != "bert"@.len() && "xlnet"@.len() != "distilbert"@.len() && "xlnet"@.len() != "deberta"@.len() && "xlnet"@.len() != "deberta_v2"@.len() && "xlnet"@.len() != "debertav2"@.len() && "xlnet"@.len() != "roberta"@.len() && "xlnet"@.len() != "xlm_roberta"@.len() && "xlnet"@.len() != "xlmroberta"@.len() && "xlnet"@.len() != "electra"@.len() && "xlnet"@.len() != "marian"@.len() && "xlnet"@.len() != "mobilebert"@.len() && "xlnet"@.len() != "t5"@.len() && "xlnet"@.len() != "longt5"@.len() && "xlnet"@.len() != "albert"@.len());
            assert(model_name_text("xlnet"@));
        },
        ModelType::GPT2 => {
            assert("gpt2"@[0] != "bart"@[0] && "gpt2"@[0] != "bert"@[0] && "gpt2"@.len() != "distilbert"@.len() && "gpt2"@.len() != "deberta"@.len() && "gpt2"@.len() != "deberta_v2"@.len() && "gpt2"@.len() != "debertav2"@.len() && "gpt2"@.len() != "roberta"@.len() && "gpt2"@.len() != "xlm_roberta"@.len() && "gpt2"@.len() != "xlmroberta"@.len() && "gpt2"@.len() != "electra"@.len() && "gpt2"@.len() != "marian"@.len() && "gpt2"@.len() != "mobilebert"@.len() && "gpt2"@.len() != "t5"@.len() && "gpt2"@.len() != "longt5"@.len() && "gpt2"@.len() != "albert"@.len() && "gpt2"@.len() != "xlnet"@.len());
            assert(model_name_text("gpt2"@));
        },
        ModelType::GPTJ => {
            assert("gptj"@[0] != "bart"@[0] && "gptj"@[0] != "bert"@[0] && "gptj"@.len() != "distilbert"@.len() && "gptj"@.len() != "deberta"@.len() && "gptj"@.len() != "deberta_v2"@.len() && "gptj"@.len() != "debertav2"@.len() && "gptj"@.len() != "roberta"@.len() && "gptj"@.len() != "xlm_roberta"@.len() && "gptj"@.len() != "xlmroberta"@.len() && "gptj"@.len() != "electra"@.len() && "gptj"@.len() != "marian"@.len() && "gptj"@.len() != "mobilebert"@.len() && "gptj"@.len() != "t5"@.len() && "gptj"@.len() != "longt5"@.len() && "gptj"@.len() != "albert"@.len() && "gptj"@.len() != "xlnet"@.len() && "gptj"@[3] != "gpt2"@[3]);
            assert(model_name_text("gptj"@));
        },
        ModelType::OpenAiGpt => {
            assert("openai_gpt"@.len() != "bart"@.len() && "openai_gpt"@.len() != "bert"@.len() && "openai_gpt"@[0] != "distilbert"@[0] && "openai_gpt"@.len() != "deberta"@.len() && "openai_gpt"@[0] != "deberta_v2"@[0] && "openai_gpt"@.len() != "debertav2"@.len() && "openai_gpt"@.len() != "roberta"@.len() && "openai_gpt"@.len() != "xlm_roberta"@.len() && "openai_gpt"@[0] != "xlmroberta"@[0] && "openai_gpt"@.len() != "electra"@.len() && "openai_gpt"@.len() != "marian"@.len() && "openai_gpt"@[0] != "mobilebert"@[0] && "openai_gpt"@.len() != "t5"@.len() && "openai_gpt"@.len() != "longt5"@.len() && "openai_gpt"@.len() != "albert"@.len() && "openai_gpt"@.len() != "xlnet"@.len() && "openai_gpt"@.len() != "gpt2"@.len() && "openai_gpt"@.len() != "gptj"@.len() && "openai_gpt"@.len() != "gpt_j"@.len());
            assert(model_name_text("openai_gpt"@));
        },
        ModelType::Reformer => {
            assert("reformer"@.len() != "bart"@.len() && "reformer"@.len() != "bert"@.len() && "reformer"@.len() != "distilbert"@.len() && "reformer"@.len() != "deberta"@.len() && "reformer"@.len() != "deberta_v2"@.len() && "reformer"@.len() != "debertav2"@.len() && "reformer"@.len() != "roberta"@.len() && "reformer"@.len() != "xlm_roberta"@.len() && "reformer"@.len() != "xlmroberta"@.len() && "reformer"@.len() != "electra"@.len() && "reformer"@.len() != "marian"@.len() && "reformer"@.len() != "mobilebert"@.len() && "reformer"@.len() != "t5"@.len() && "reformer"@.len() != "longt5"@.len() && "reformer"@.len() != "albert"@.len() && "reformer"@.len() != "xlnet"@.len() && "reformer"@.len() != "gpt2"@.len() && "reformer"@.len() != "gptj"@.len() && "reformer"@.len() != "gpt_j"@.len() && "reformer"@.len() != "openai_gpt"@.len() && "reformer"@.len() != "openaigpt"@.len());
            assert(model_name_text("reformer"@));
        },
        ModelType::ProphetNet => {
            assert("prophetnet"@.len() != "bart"@.len() && "prophetnet"@.len() != "bert"@.len() && "prophetnet"@[0] != "distilbert"@[0] && "prophetnet"@.len() != "deberta"@.len() && "prophetnet"@[0] != "deberta_v2"@[0] && "prophetnet"@.len() != "debertav2"@.len() && "prophetnet"@.len() != "roberta"@.len() && "prophetnet"@.len() != "xlm_roberta"@.len() && "prophetnet"@[0] != "xlmroberta"@[0] && "prophetnet"@.len() != "electra"@.len() && "prophetnet"@.len() != "marian"@.len() && "prophetnet"@[0] != "mobilebert"@[0] && "prophetnet"@.len() != "t5"@.len() && "prophetnet"@.len() != "longt5"@.len() && "prophetnet"@.len() != "albert"@.len() && "prophetnet"@.len() != "xlnet"@.len() && "prophetnet"@.len() != "gpt2"@.len() && "prophetnet"@.len() != "gptj"@.len() && "prophetnet"@.len() != "gpt_j"@.len() && "prophetnet"@[0] != "openai_gpt"@[0] && "prophetnet"@.len() != "openaigpt"@.len() && "prophetnet"@.len() != "reformer"@.len());
            assert(model_name_text("prophetnet"@));
        },
        ModelType::Longformer => {
            assert("longformer"@.len() != "bart"@.len() && "longformer"@.len() != "bert"@.len() && "longformer"@[0] != "distilbert"@[0] && "longformer"@.len() != "deberta"@.len() && "longformer"@[0] != "deberta_v2"@[0] && "longformer"@.len() != "debertav2"@.len() && "longformer"@.len() != "roberta"@.len() && "longformer"@.len() != "xlm_roberta"@.len() && "longformer"@[0] != "xlmroberta"@[0] && "longformer"@.len() != "electra"@.len() && "longformer"@.len() != "marian"@.len() && "longformer"@[0] != "mobilebert"@[0] && "longformer"@.len() != "t5"@.len() && "longformer"@.len() != "longt5"@.len() && "longformer"@.len() != "albert"@.len() && "longformer"@.len() != "xlnet"@.len() && "longformer"@.len() != "gpt2"@.len() && "longformer"@.len() != "gptj"@.len() && "longformer"@.len() != "gpt_j"@.len() && "longformer"@[0] != "openai_gpt"@[0] && "longformer"@.len() != "openaigpt"@.len() && "longformer"@.len() != "reformer"@.len() && "longformer"@[0] != "prophetnet"@[0]);
            assert(model_name_text("longformer"@));
        },
        ModelType::Pegasus => {
            assert("pegasus"@.len() != "bart"@.len() && "pegasus"@.len() != "bert"@.len() && "pegasus"@.len() != "distilbert"@.len() && "pegasus"@[0] != "deberta"@[0] && "pegasus"@.len() != "deberta_v2"@.len() && "pegasus"@.len() != "debertav2"@.len() && "pegasus"@[0] != "roberta"@[0] && "pegasus"@.len() != "xlm_roberta"@.len() && "pegasus"@.len() != "xlmroberta"@.len() && "pegasus"@[0] != "electra"@[0] && "pegasus"@.len() != "marian"@.len() && "pegasus"@.len() != "mobilebert"@.len() && "pegasus"@.len() != "t5"@.len() && "pegasus"@.len() != "longt5"@.len() && "pegasus"@.len() != "albert"@.len() && "pegasus"@.len() != "xlnet"@.len() && "pegasus"@.len() != "gpt2"@.len() && "pegasus"@.len() != "gptj"@.len() && "pegasus"@.len() != "gpt_j"@.len() && "pegasus"@.len() != "openai_gpt"@.len() && "pegasus"@.len() != "openaigpt"@.len() && "pegasus"@.len() != "reformer"@.len() && "pegasus"@.len() != "prophetnet"@.len() && "pegasus"@.len() != "longformer"@.len());
            assert(model_name_text("pegasus"@));
        },
        ModelType::GPTNeo => {
            assert("gpt_neo"@.len() != "bart"@.len() && "gpt_neo"@.len() != "bert"@.len() && "gpt_neo"@.len() != "distilbert"@.len() && "gpt_neo"@[0] != "deberta"@[0] && "gpt_neo"@.len() != "deberta_v2"@.len() && "gpt_neo"@.len() != "debertav2"@.len() && "gpt_neo"@[0] != "roberta"@[0] && "gpt_neo"@.len() != "xlm_roberta"@.len() && "gpt_neo"@.len() != "xlmroberta"@.len() && "gpt_neo"@[0] != "electra"@[0] && "gpt_neo"@.len() != "marian"@.len() && "gpt_neo"@.len() != "mobilebert"@.len() && "gpt_neo"@.len() != "t5"@.len() && "gpt_neo"@.len() != "longt5"@.len() && "gpt_neo"@.len() != "albert"@.len() && "gpt_neo"@.len() != "xlnet"@.len() && "gpt_neo"@.len() != "gpt2"@.len() && "gpt_neo"@.len() != "gptj"@.len() && "gpt_neo"@.len() != "gpt_j"@.len() && "gpt_neo"@.len() != "openai_gpt"@.len() && "gpt_neo"@.len() != "openaigpt"@.len() && "gpt_neo"@.len() != "reformer"@.len() && "gpt_neo"@.len() != "prophetnet"@.len() && "gpt_neo"@.len() != "longformer"@.len() && "gpt_neo"@[0] != "pegasus"@[0]);
            assert(model_name_text("gpt_neo"@));
        },
        ModelType::MBart => {
            assert("mbart"@.len() != "bart"@.len() && "mbart"@.len() != "bert"@.len() && "mbart"@.len() != "distilbert"@.len() && "mbart"@.len() != "deberta"@.len() && "mbart"@.len() != "deberta_v2"@.len() && "mbart"@.len() != "debertav2"@.len() && "mbart"@.len() != "roberta"@.len() && "mbart"@.len() != "xlm_roberta"@.len() && "mbart"@.len() != "xlmroberta"@.len() && "mbart"@.len() != "electra"@.len() && "mbart"@.len() != "marian"@.len() && "mbart"@.len() != "mobilebert"@.len() && "mbart"@.len() != "t5"@.len() && "mbart"@.len() != "longt5"@.len() && "mbart"@.len() != "albert"@.len() && "mbart"@[0] != "xlnet"@[0] && "mbart"@.len() != "gpt2"@.len() && "mbart"@.len() != "gptj"@.len() && "mbart"@[0] != "gpt_j"@[0] && "mbart"@.len() != "openai_gpt"@.len() && "mbart"@.len() != "openaigpt"@.len() && "mbart"@.len() != "reformer"@.len() && "mbart"@.len() != "prophetnet"@.len() && "mbart"@.len() != "longformer"@.len() && "mbart"@.len() != "pegasus"@.len() && "mbart"@.len() != "gpt_neo"@.len() && "mbart"@.len() != "gptneo"@.len());
            assert(model_name_text("mbart"@));
        },
        ModelType::M2M100 => {
            assert("m2m100"@.len() != "bart"@.len() && "m2m100"@.len() != "bert"@.len() && "m2m100"@.len() != "distilbert"@.len() && "m2m100"@.len() != "deberta"@.len() && "m2m100"@.len() != "deberta_v2"@.len() && "m2m100"@.len() != "debertav2"@.len() && "m2m100"@.len() != "roberta"@.len() && "m2m100"@.len() != "xlm_roberta"@.len() && "m2m100"@.len() != "xlmroberta"@.len() && "m2m100"@.len() != "electra"@.len() && "m2m100"@[1] != "marian"@[1] && "m2m100"@.len() != "mobilebert"@.len() && "m2m100"@.len() != "t5"@.len() && "m2m100"@[0] != "longt5"@[0] && "m2m100"@[0] != "albert"@[0] && "m2m100"@.len() != "xlnet"@.len() && "m2m100"@.len() != "gpt2"@.len() && "m2m100"@.len() != "gptj"@.len() && "m2m100"@.len() != "gpt_j"@.len() && "m2m100"@.len() != "openai_gpt"@.len() && "m2m100"@.len() != "openaigpt"@.len() && "m2m100"@.len() != "reformer"@.len() && "m2m100"@.len() != "prophetnet"@.len() && "m2m100"@.len() != "longformer"@.len() && "m2m100"@.len() != "pegasus"@.len() && "m2m100"@.len() != "gpt_neo"@.len() && "m2m100"@[0] != "gptneo"@[0] && "m2m100"@.len() != "mbart"@.len());
            assert(model_name_text("m2m100"@));
        },
        ModelType::NLLB => {
            assert("nllb"@[0] != "bart"@[0] && "nllb"@[0] != "bert"@[0] && "nllb"@.len() != "distilbert"@.len() && "nllb"@.len() != "deberta"@.len() && "nllb"@.len() != "deberta_v2"@.len() && "nllb"@.len() != "debertav2"@.len() && "nllb"@.len() != "roberta"@.len() && "nllb"@.len() != "xlm_roberta"@.len() && "nllb"@.len() != "xlmroberta"@.len() && "nllb"@.len() != "electra"@.len() && "nllb"@.len() != "marian"@.len() && "nllb"@.len() != "mobilebert"@.len() && "nllb"@.len() != "t5"@.len() && "nllb"@.len() != "longt5"@.len() && "nllb"@.len() != "albert"@.len() && "nllb"@.len() != "xlnet"@.len() && "nllb"@[0] != "gpt2"@[0] && "nllb"@[0] != "gptj"@[0] && "nllb"@.len() != "gpt_j"@.len() && "nllb"@.len() != "openai_gpt"@.len() && "nllb"@.len() != "openaigpt"@.len() && "nllb"@.len() != "reformer"@.len() && "nllb"@.len() != "prophetnet"@.len() && "nllb"@.len() != "longformer"@.len() && "nllb"@.len() != "pegasus"@.len() && "nllb"@.len() != "gpt_neo"@.len() && "nllb"@.len() != "gptneo"@.len() && "nllb"@.len() != "mbart"@.len() && "nllb"@.len() != "m2m100"@.len());
            assert(model_name_text("nllb"@));
        },
        ModelType::FNet => {
            assert("fnet"@[0] != "bart"@[0] && "fnet"@[0] != "bert"@[0] && "fnet"@.len() != "distilbert"@.len() && "fnet"@.len() != "deberta"@.len() && "fnet"@.len() != "deberta_v2"@.len() && "fnet"@.len() != "debertav2"@.len() && "fnet"@.len() != "roberta"@.len() && "fnet"@.len() != "xlm_roberta"@.len() && "fnet"@.len() != "xlmroberta"@.len() && "fnet"@.len() != "electra"@.len() && "fnet"@.len() != "marian"@.len() && "fnet"@.len() != "mobilebert"@.len() && "fnet"@.len() != "t5"@.len() && "fnet"@.len() != "longt5"@.len() && "fnet"@.len() != "albert"@.len() && "fnet"@.len() != "xlnet"@.len() && "fnet"@[0] != "gpt2"@[0] && "fnet"@[0] != "gptj"@[0] && "fnet"@.len() != "gpt_j"@.len() && "fnet"@.len() != "openai_gpt"@.len() && "fnet"@.len() != "openaigpt"@.len() && "fnet"@.len() != "reformer"@.len() && "fnet"@.len() != "prophetnet"@.len() && "fnet"@.len() != "longformer"@.len() && "fnet"@.len() != "pegasus"@.len() && "fnet"@.len() != "gpt_neo"@.len() && "fnet"@.len() != "gptneo"@.len() && "fnet"@.len() != "mbart"@.len() && "fnet"@.len() != "m2m100"@.len() && "fnet"@[0] != "nllb"@[0]);
            assert(model_name_text("fnet"@));
        },
        ModelType::Custom(_) => {},
    }
}

/// Different built-in model types have different names.
pub proof fn law_model_names_distinct(a: ModelType, b: ModelType)
    requires
        !(a is Custom),
        !(b is Custom),
        a != b,
    ensures
        a.name_spec() != b.name_spec(),
{
    law_model_name_reads_back(a);
    law_model_name_reads_back(b);
}

/// The architectures: decoder-only (GPT-like) models are exactly GPT-2,
/// GPT-J, OpenAI GPT, GPT-Neo and Reformer; encoder-only (BERT-like) models
/// are exactly BERT, DistilBERT, DeBERTa (both versions), RoBERTa,
/// XLM-RoBERTa, ELECTRA, MobileBERT, ALBERT, Longformer and FNet;
/// encoder-decoder (seq2seq) models are exactly BART, mBART, T5, LongT5,
/// Marian, Pegasus, ProphetNet, M2M100 and NLLB.
pub proof fn law_architecture_lists(m: ModelType)
    ensures
        m.is_decoder_only_spec() <==> (m == ModelType::GPT2 || m == ModelType::GPTJ || m == ModelType::OpenAiGpt
            || m == ModelType::GPTNeo || m == ModelType::Reformer),
        m.is_encoder_only_spec() <==> (m == ModelType::Bert || m == ModelType::DistilBert || m == ModelType::Deberta
            || m == ModelType::DebertaV2 || m == ModelType::Roberta || m == ModelType::XLMRoberta
            || m == ModelType::Electra || m == ModelType::MobileBert || m == ModelType::Albert
            || m == ModelType::Longformer || m == ModelType::FNet),
        m.is_encoder_decoder_spec() <==> (m == ModelType::Bart || m == ModelType::MBart || m == ModelType::T5
            || m == ModelType::LongT5 || m == ModelType::Marian || m == ModelType::Pegasus
            || m == ModelType::ProphetNet || m == ModelType::M2M100 || m == ModelType::NLLB),
{
}

/// Every built-in model type but XLNet has exactly one architecture:
/// encoder-only, decoder-only or encoder-decoder; XLNet and custom types have
/// none.
pub proof fn law_one_architecture(m: ModelType)
    ensures
        !(m is Custom) && m != ModelType::XLNet ==> (
            (m.is_encoder_only_spec() as int) + (m.is_decoder_only_spec() as int) + (m.is_encoder_decoder_spec() as int) == 1
        ),
        (m is Custom || m == ModelType::XLNet) ==> !m.is_encoder_only_spec() && !m.is_decoder_only_spec()
            && !m.is_encoder_decoder_spec(),
{
}

/// Translation and summarization models are encoder-decoder models; models
/// for zero-shot classification have an encoder (encoder-only or
/// encoder-decoder), and no decoder-only model supports it.
pub proof fn law_tasks_fit_architectures(m: ModelType)
    ensures
        m.is_translation_spec() ==> m.is_encoder_decoder_spec(),
        m.is_summarization_spec() ==> m.is_encoder_decoder_spec(),
        m.supports_zero_shot_spec() ==> m.is_encoder_only_spec() || m.is_encoder_decoder_spec(),
        m.is_decoder_only_spec() ==> !m.supports_zero_shot_spec(),
{
}

} // verus!
