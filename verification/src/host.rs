//! Values of the host language, as the answers they give when probed.

use vstd::prelude::*;

verus! {

/// What the floating-point probe of a host value found.
#[derive(Debug, PartialEq)]
pub enum FloatProbe {
    /// The value is not a floating-point scalar.
    Absent,
    /// A finite number, held as the JSON number made from it.
    Finite(serde_json::Number),
    /// NaN or an infinity, with the host's rendering of the value.
    NonFinite(String),
}

/// What asking a host value for its default string conversion gave.
#[derive(Debug, PartialEq)]
pub enum StringForm {
    Text(String),
    /// The value's type offers no string conversion.
    Unavailable,
    /// The conversion was attempted and the host reported an error.
    Failed(String),
}

/// A key of a host mapping, as the answers it gives to the probes that key
/// coercion consults. A probe whose answer is `Err` failed inside the host,
/// and the text is the host's report.
#[derive(Debug, PartialEq)]
pub struct HostKey {
    /// Whether the key equals the host's none sentinel.
    pub none_test: Result<bool, String>,
    /// The key read as a boolean.
    pub boolean: Option<bool>,
    /// The host's default string conversion of the key.
    pub string_form: StringForm,
    /// The name of the key's type.
    pub typename: Result<String, String>,
}

/// A value of the host language, as the answers it gives to each probe.
///
/// A value may answer several probes at once; which answer counts is decided
/// by the order in which the normalizer consults them. A probe whose answer is
/// `Err` failed inside the host, and the text is the host's report.
#[derive(Debug, PartialEq)]
pub struct HostValue {
    /// Whether the value equals the host's none sentinel.
    pub none_test: Result<bool, String>,
    /// The value read as text.
    pub text: Option<String>,
    /// The value read as a boolean.
    pub boolean: Option<bool>,
    /// The value read as an unsigned 64-bit integer.
    pub unsigned: Option<u64>,
    /// The value read as a signed 64-bit integer.
    pub signed: Option<i64>,
    /// The entries of a key-value mapping, in the host's iteration order.
    pub mapping: Option<Vec<(HostKey, HostValue)>>,
    /// The elements of a list-like sequence.
    pub list: Option<Vec<HostValue>>,
    /// The elements of a tuple-like sequence.
    pub tuple: Option<Vec<HostValue>>,
    /// The value read as a floating-point scalar.
    pub float: FloatProbe,
    /// The name of the value's type.
    pub typename: Result<String, String>,
}

/// The content of a [`FloatProbe`].
pub enum FloatModel {
    Absent,
    Finite(serde_json::Number),
    NonFinite(Seq<char>),
}

/// The content of a [`StringForm`].
pub enum StringFormModel {
    Text(Seq<char>),
    Unavailable,
    Failed(Seq<char>),
}

/// The content of a [`HostKey`].
pub struct KeyModel {
    pub none_test: Result<bool, Seq<char>>,
    pub boolean: Option<bool>,
    pub string_form: StringFormModel,
    pub typename: Result<Seq<char>, Seq<char>>,
}

/// The content of a [`HostValue`].
pub struct HostModel {
    pub none_test: Result<bool, Seq<char>>,
    pub text: Option<Seq<char>>,
    pub boolean: Option<bool>,
    pub unsigned: Option<u64>,
    pub signed: Option<i64>,
    pub mapping: Option<Seq<(KeyModel, HostModel)>>,
    pub list: Option<Seq<HostModel>>,
    pub tuple: Option<Seq<HostModel>>,
    pub float: FloatModel,
    pub typename: Result<Seq<char>, Seq<char>>,
}

impl View for FloatProbe {
    type V = FloatModel;

    open spec fn view(&self) -> FloatModel {
        match self {
            FloatProbe::Absent => FloatModel::Absent,
            FloatProbe::Finite(n) => FloatModel::Finite(*n),
            FloatProbe::NonFinite(s) => FloatModel::NonFinite(s@),
        }
    }
}

impl View for StringForm {
    type V = StringFormModel;

    open spec fn view(&self) -> StringFormModel {
        match self {
            StringForm::Text(s) => StringFormModel::Text(s@),
            StringForm::Unavailable => StringFormModel::Unavailable,
            StringForm::Failed(e) => StringFormModel::Failed(e@),
        }
    }
}

/// The content of a probe answer that is either a text or a host report.
pub open spec fn text_answer(answer: Result<String, String>) -> Result<Seq<char>, Seq<char>> {
    match answer {
        Ok(s) => Ok(s@),
        Err(e) => Err(e@),
    }
}

/// The content of a probe answer that is either a truth value or a host
/// report.
pub open spec fn test_answer(answer: Result<bool, String>) -> Result<bool, Seq<char>> {
    match answer {
        Ok(b) => Ok(b),
        Err(e) => Err(e@),
    }
}

impl View for HostKey {
    type V = KeyModel;

    open spec fn view(&self) -> KeyModel {
        KeyModel {
            none_test: test_answer(self.none_test),
            boolean: self.boolean,
            string_form: self.string_form@,
            typename: text_answer(self.typename),
        }
    }
}

/// The contents of a sequence of host values, one by one.
pub open spec fn item_models(items: Seq<HostValue>) -> Seq<HostModel>
    decreases items,
{
    Seq::new(
        items.len(),
        |i: int|
            if 0 <= i < items.len() {
                items[i].view()
            } else {
                arbitrary()
            },
    )
}

/// The contents of a sequence of mapping entries, one by one.
pub open spec fn entry_models(entries: Seq<(HostKey, HostValue)>) -> Seq<(KeyModel, HostModel)>
    decreases entries,
{
    Seq::new(
        entries.len(),
        |i: int|
            if 0 <= i < entries.len() {
                (entries[i].0.view(), entries[i].1.view())
            } else {
                arbitrary()
            },
    )
}

impl View for HostValue {
    type V = HostModel;

    open spec fn view(&self) -> HostModel
        decreases self,
    {
        HostModel {
            none_test: test_answer(self.none_test),
            text: match self.text {
                Some(s) => Some(s@),
                None => None,
            },
            boolean: self.boolean,
            unsigned: self.unsigned,
            signed: self.signed,
            mapping: match self.mapping {
                Some(entries) => Some(entry_models(entries@)),
                None => None,
            },
            list: match self.list {
                Some(items) => Some(item_models(items@)),
                None => None,
            },
            tuple: match self.tuple {
                Some(items) => Some(item_models(items@)),
                None => None,
            },
            float: self.float@,
            typename: text_answer(self.typename),
        }
    }
}

impl HostValue {
    /// A value that is not the none sentinel and answers no probe: only the
    /// name of its type is known.
    pub fn opaque(typename: String) -> (h: HostValue)
        ensures
            h@ == (HostModel {
                none_test: Ok(false),
                text: None,
                boolean: None,
                unsigned: None,
                signed: None,
                mapping: None,
                list: None,
                tuple: None,
                float: FloatModel::Absent,
                typename: Ok(typename@),
            }),
    {
        HostValue {
            none_test: Ok(false),
            text: None,
            boolean: None,
            unsigned: None,
            signed: None,
            mapping: None,
            list: None,
            tuple: None,
            float: FloatProbe::Absent,
            typename: Ok(typename),
        }
    }
}

} // verus!
