use vstd::prelude::*;
use vstd::string::StrSliceExecFns;

verus! {

/// The closed set of backend variants the connector speaks to: an embedded
/// single-file engine, or a networked client-server engine family.
#[derive(Clone, Copy, PartialEq, Eq, Structural, Debug)]
pub enum Backend {
    Embedded,
    ClientServer,
}

/// The semantic category a raw column value is classified into, from the
/// backend-reported type name, before it is formatted for display.
#[derive(Clone, Copy, PartialEq, Eq, Structural, Debug)]
pub enum Category {
    Integer,
    Float,
    Text,
    DateTime,
    Unsupported,
}

/// The type-name table of the embedded backend.
pub open spec fn spec_category_embedded(name: Seq<char>) -> Category {
    if name == "INTEGER"@ {
        Category::Integer
    } else if name == "REAL"@ {
        Category::Float
    } else if name == "TEXT"@ {
        Category::Text
    } else {
        Category::Unsupported
    }
}

/// The type-name table of the client-server backend.
pub open spec fn spec_category_client_server(name: Seq<char>) -> Category {
    if name == "INT"@ || name == "TINYINT"@ || name == "SMALLINT"@ || name == "MEDIUMINT"@
        || name == "BIGINT"@ {
        Category::Integer
    } else if name == "FLOAT"@ || name == "DOUBLE"@ || name == "DECIMAL"@ {
        Category::Float
    } else if name == "VARCHAR"@ || name == "CHAR"@ || name == "TEXT"@ || name == "LONGTEXT"@ {
        Category::Text
    } else if name == "DATETIME"@ || name == "TIMESTAMP"@ {
        Category::DateTime
    } else {
        Category::Unsupported
    }
}

/// The narrowest category a backend-reported type name falls under.
pub open spec fn spec_category_of(backend: Backend, name: Seq<char>) -> Category {
    match backend {
        Backend::Embedded => spec_category_embedded(name),
        Backend::ClientServer => spec_category_client_server(name),
    }
}

/// The display text of one cell: a null value always renders as `"NULL"`; a
/// type name outside the category table renders as `"<unsupported>"`; a value
/// that failed to decode into its category renders as `"<err>"`; otherwise
/// the decoded text itself is shown.
pub open spec fn spec_cell_text(is_null: bool, cat: Category, decoded: Option<String>) -> Seq<
    char,
> {
    if is_null {
        "NULL"@
    } else if cat == Category::Unsupported {
        "<unsupported>"@
    } else {
        match decoded {
            Some(s) => s@,
            None => "<err>"@,
        }
    }
}

/// Character-by-character string comparison, so that equality of the
/// backend-reported type name with a table entry is a proved fact about the
/// string views rather than an appeal to an unspecified `==`.
fn str_eq(a: &str, b: &str) -> (r: bool)
    ensures
        r == (a@ == b@),
{
    let alen = a.unicode_len();
    let blen = b.unicode_len();
    if alen != blen {
        return false;
    }
    let mut i: usize = 0;
    while i < alen
        invariant
            i <= alen,
            alen == a@.len(),
            blen == b@.len(),
            alen == blen,
            forall|j: int| 0 <= j < i ==> a@[j] == b@[j],
        decreases alen - i,
    {
        if a.get_char(i) != b.get_char(i) {
            return false;
        }
        i = i + 1;
    }
    proof {
        assert(a@ =~= b@);
    }
    true
}

/// Classify a backend-reported type name per the backend's type-name table.
pub fn category_of(backend: Backend, name: &str) -> (r: Category)
    ensures
        r == spec_category_of(backend, name@),
{
    match backend {
        Backend::Embedded => {
            if str_eq(name, "INTEGER") {
                Category::Integer
            } else if str_eq(name, "REAL") {
                Category::Float
            } else if str_eq(name, "TEXT") {
                Category::Text
            } else {
                Category::Unsupported
            }
        },
        Backend::ClientServer => {
            if str_eq(name, "INT") || str_eq(name, "TINYINT") || str_eq(
                name,
                "SMALLINT",
            ) || str_eq(name, "MEDIUMINT") || str_eq(name, "BIGINT") {
                Category::Integer
            } else if str_eq(name, "FLOAT") || str_eq(name, "DOUBLE") || str_eq(
                name,
                "DECIMAL",
            ) {
                Category::Float
            } else if str_eq(name, "VARCHAR") || str_eq(name, "CHAR") || str_eq(
                name,
                "TEXT",
            ) || str_eq(name, "LONGTEXT") {
                Category::Text
            } else if str_eq(name, "DATETIME") || str_eq(name, "TIMESTAMP") {
                Category::DateTime
            } else {
                Category::Unsupported
            }
        },
    }
}

/// Format one cell for display from its nullability, its category, and the
/// outcome of decoding it into that category (`None` when decoding failed).
/// This never fails: malformed cells degrade to a visible placeholder.
pub fn render_cell(is_null: bool, category: Category, decoded: Option<String>) -> (r: String)
    ensures
        r@ == spec_cell_text(is_null, category, decoded),
{
    if is_null {
        "NULL".to_owned()
    } else {
        match category {
            Category::Unsupported => "<unsupported>".to_owned(),
            _ => {
                match decoded {
                    Some(s) => s,
                    None => "<err>".to_owned(),
                }
            },
        }
    }
}

/// The whole per-cell decoding rule: classify the reported type name, then
/// format the decode outcome for that category.
pub fn cell_text(backend: Backend, is_null: bool, name: &str, decoded: Option<String>) -> (r:
    String)
    ensures
        r@ == spec_cell_text(is_null, spec_category_of(backend, name@), decoded),
{
    let category = category_of(backend, name);
    render_cell(is_null, category, decoded)
}

} // verus!
