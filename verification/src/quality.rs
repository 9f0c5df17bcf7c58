//! Quality-control check kinds and their stored names.

use vstd::prelude::*;
use vstd::utf8::is_ascii_chars;
use crate::text::{ascii_lower, str_eq, to_lowercase, unicode_lowercase};

verus! {

/// The kind of a quality-control check.
#[derive(Debug, Clone, PartialEq)]
pub enum QACheckType {
    Ph,
    Temperature,
    Sealed,
    Visual,
    Microbiological,
    Weight,
    /// A kind outside the known ones, under its own name.
    Other(String),
}

/// A check kind as a plain value.
pub enum QACheckTypeView {
    Ph,
    Temperature,
    Sealed,
    Visual,
    Microbiological,
    Weight,
    Other(Seq<char>),
}

impl View for QACheckType {
    type V = QACheckTypeView;

    open spec fn view(&self) -> QACheckTypeView {
        match self {
            QACheckType::Ph => QACheckTypeView::Ph,
            QACheckType::Temperature => QACheckTypeView::Temperature,
            QACheckType::Sealed => QACheckTypeView::Sealed,
            QACheckType::Visual => QACheckTypeView::Visual,
            QACheckType::Microbiological => QACheckTypeView::Microbiological,
            QACheckType::Weight => QACheckTypeView::Weight,
            QACheckType::Other(name) => QACheckTypeView::Other(name@),
        }
    }
}

/// The text of a check kind: its display name, or the name of an unlisted kind.
pub open spec fn check_type_text(kind: QACheckTypeView) -> Seq<char> {
    match kind {
        QACheckTypeView::Ph => "pH"@,
        QACheckTypeView::Temperature => "temperature"@,
        QACheckTypeView::Sealed => "sealed"@,
        QACheckTypeView::Visual => "visual"@,
        QACheckTypeView::Microbiological => "microbiological"@,
        QACheckTypeView::Weight => "weight"@,
        QACheckTypeView::Other(name) => name,
    }
}

/// The check kind that a lowercased name denotes; any other name is an unlisted kind of that
/// name.
pub open spec fn check_type_of_lowercase(name: Seq<char>) -> QACheckTypeView {
    if name == "ph"@ {
        QACheckTypeView::Ph
    } else if name == "temperature"@ {
        QACheckTypeView::Temperature
    } else if name == "sealed"@ {
        QACheckTypeView::Sealed
    } else if name == "visual"@ {
        QACheckTypeView::Visual
    } else if name == "microbiological"@ {
        QACheckTypeView::Microbiological
    } else if name == "weight"@ {
        QACheckTypeView::Weight
    } else {
        QACheckTypeView::Other(name)
    }
}

impl QACheckType {
    /// The text of the kind, as it is stored and shown.
    pub fn to_string(&self) -> (r: String)
        ensures
            r@ == check_type_text(self@),
    {
        match self {
            QACheckType::Ph => String::from_str("pH"),
            QACheckType::Temperature => String::from_str("temperature"),
            QACheckType::Sealed => String::from_str("sealed"),
            QACheckType::Visual => String::from_str("visual"),
            QACheckType::Microbiological => String::from_str("microbiological"),
            QACheckType::Weight => String::from_str("weight"),
            QACheckType::Other(name) => name.clone(),
        }
    }

    /// The kind that `s` names in any letter case; an unknown name gives an unlisted kind
    /// under the lowercased name.
    pub fn parse(s: &str) -> (r: QACheckType)
        ensures
            r@ == check_type_of_lowercase(unicode_lowercase(s@)),
            is_ascii_chars(s@) ==> r@ == check_type_of_lowercase(ascii_lower(s@)),
    {
        let lowered = to_lowercase(s);
        let name = lowered.as_str();
        if str_eq(name, "ph") {
            QACheckType::Ph
        } else if str_eq(name, "temperature") {
            QACheckType::Temperature
        } else if str_eq(name, "sealed") {
            QACheckType::Sealed
        } else if str_eq(name, "visual") {
            QACheckType::Visual
        } else if str_eq(name, "microbiological") {
            QACheckType::Microbiological
        } else if str_eq(name, "weight") {
            QACheckType::Weight
        } else {
            QACheckType::Other(lowered)
        }
    }
}

impl std::str::FromStr for QACheckType {
    type Err = String;

    fn from_str(s: &str) -> (r: Result<QACheckType, String>)
        ensures
            r matches Ok(kind) && kind@ == check_type_of_lowercase(unicode_lowercase(s@)),
            is_ascii_chars(s@) ==> (r matches Ok(kind) && kind@ == check_type_of_lowercase(
                ascii_lower(s@),
            )),
    {
        Ok(QACheckType::parse(s))
    }
}

/// The text of a listed kind reads back, in any ASCII letter case, as that kind; the text
/// of an unlisted kind whose name is lowercase and not a listed name reads back as itself.
pub proof fn law_check_type_text_roundtrip(kind: QACheckTypeView)
    ensures
        !(kind is Other) ==> is_ascii_chars(check_type_text(kind)) && check_type_of_lowercase(
            ascii_lower(check_type_text(kind)),
        ) == kind,
        kind matches QACheckTypeView::Other(name) && ascii_lower(name) == name
            && check_type_of_lowercase(name) is Other ==> check_type_of_lowercase(
            ascii_lower(check_type_text(kind)),
        ) == kind,
{
    reveal_strlit("pH");
    reveal_strlit("ph");
    reveal_strlit("temperature");
    reveal_strlit("sealed");
    reveal_strlit("visual");
    reveal_strlit("microbiological");
    reveal_strlit("weight");
    match kind {
        QACheckTypeView::Ph => {
            assert(ascii_lower("pH"@) =~= "ph"@);
        },
        QACheckTypeView::Temperature => {
            assert(ascii_lower("temperature"@) =~= "temperature"@);
        },
        QACheckTypeView::Sealed => {
            assert(ascii_lower("sealed"@) =~= "sealed"@);
            assert("sealed"@.len() != "ph"@.len());
            assert("sealed"@ != "temperature"@);
        },
        QACheckTypeView::Visual => {
            assert(ascii_lower("visual"@) =~= "visual"@);
            assert("visual"@[0] != "sealed"@[0]);
            assert("visual"@ != "temperature"@);
        },
        QACheckTypeView::Microbiological => {
            assert(ascii_lower("microbiological"@) =~= "microbiological"@);
        },
        QACheckTypeView::Weight => {
            assert(ascii_lower("weight"@) =~= "weight"@);
            assert("weight"@[0] != "sealed"@[0]);
            assert("weight"@[0] != "visual"@[0]);
            assert("weight"@ != "temperature"@);
        },
        QACheckTypeView::Other(name) => {},
    }
}

} // verus!
