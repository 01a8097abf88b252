//! Resources that the backend serves, and how lists of them are paged.

pub mod category;
pub mod department;
pub mod user;

pub use self::category::Category;
pub use self::department::Department;
pub use self::user::Role;

use vstd::prelude::*;
use vstd::string::StringExecFns;

verus! {

/// The page length that is used where a request names none.
pub const DEFAULT_CURSOR_LENGTH: i32 = 20;

/// The shortest page that is served.
pub const MIN_CURSOR_LENGTH: i32 = 1;

/// The longest page that is served.
pub const MAX_CURSOR_LENGTH: i32 = 200;

/// The page length that is used where a request names none.
pub fn _default_cursor_length() -> (length: i32)
    ensures
        length == DEFAULT_CURSOR_LENGTH,
{
    DEFAULT_CURSOR_LENGTH
}

/// Where a page of a list begins, how long it is and in which direction it
/// lies.
#[derive(Debug)]
pub struct CursorOptions {
    pub cursor: i32,
    pub length: i32,
    pub previous: bool,
}

impl Default for CursorOptions {
    fn default() -> (options: Self)
        ensures
            options.cursor == 0,
            options.length == DEFAULT_CURSOR_LENGTH,
            !options.previous,
    {
        Self { cursor: 0, length: _default_cursor_length(), previous: false }
    }
}

impl CursorOptions {
    /// The number of rows to ask for: the length that was asked for, held
    /// between one row and two hundred.
    pub fn limit(&self) -> (limit: i32)
        ensures
            MIN_CURSOR_LENGTH <= limit <= MAX_CURSOR_LENGTH,
            MIN_CURSOR_LENGTH <= self.length <= MAX_CURSOR_LENGTH ==> limit == self.length,
            self.length < MIN_CURSOR_LENGTH ==> limit == MIN_CURSOR_LENGTH,
            self.length > MAX_CURSOR_LENGTH ==> limit == MAX_CURSOR_LENGTH,
    {
        if self.length < MIN_CURSOR_LENGTH {
            MIN_CURSOR_LENGTH
        } else if self.length > MAX_CURSOR_LENGTH {
            MAX_CURSOR_LENGTH
        } else {
            self.length
        }
    }

    /// The comparison that selects the rows of the page: before the cursor
    /// for a previous page, after it else.
    pub fn comparison(&self) -> (operator: &'static str)
        ensures
            operator@ == if self.previous {
                "< "@
            } else {
                "> "@
            },
    {
        if self.previous {
            "< "
        } else {
            "> "
        }
    }
}

/// What can be listed page by page: it has a number by which it is found.
pub trait CursorPaginatable {
    /// The number of the item.
    spec fn spec_id(&self) -> i32;

    fn id(&self) -> (id: i32)
        ensures
            id == self.spec_id(),
    ;
}

/// A page of a list, with the cursors of its neighbours.
#[derive(Debug)]
pub struct CursorResponse<T> {
    pub next_cursor: Option<i32>,
    pub previous_cursor: i32,
    pub has_next_page: bool,
    pub data: Vec<T>,
}

impl<T: CursorPaginatable> CursorResponse<T> {
    /// The page that holds `data`: the previous cursor is the number of its
    /// first item, or zero for an empty page, the next cursor that of its
    /// last, and a next page is promised wherever the page holds an item.
    pub fn new(data: Vec<T>) -> (response: Self)
        ensures
            response.data == data,
            response.previous_cursor == if data@.len() == 0 {
                0
            } else {
                data@[0].spec_id()
            },
            response.next_cursor == if data@.len() == 0 {
                None
            } else {
                Some(data@[data@.len() - 1].spec_id())
            },
            response.has_next_page == (data@.len() != 0),
    {
        let len = data.len();
        let previous_cursor = if len == 0 {
            0
        } else {
            data[0].id()
        };
        let next_cursor = if len == 0 {
            None
        } else {
            Some(data[len - 1].id())
        };
        Self { next_cursor, previous_cursor, has_next_page: len != 0, data }
    }
}

/// The direction in which a list is sorted.
#[derive(Clone, Copy, Debug, PartialEq, Eq, Structural)]
pub enum SortOrder {
    Asc,
    Desc,
}

/// `text` in lower case, as `str::to_lowercase` gives it.
pub uninterp spec fn lowercase_of(text: Seq<char>) -> Seq<char>;

/// Calls `str::to_lowercase`.
///
/// Believed of it: the result depends on the text alone.
#[verifier::external_body]
fn to_lowercase(text: &str) -> (lower: String)
    ensures
        lower@ == lowercase_of(text@),
{
    text.to_lowercase()
}

impl SortOrder {
    /// The direction that `v` names: descending for `desc` in any case,
    /// ascending for anything else.
    pub fn from(v: &str) -> (order: Self)
        ensures
            order == if lowercase_of(v@) == "desc"@ {
                SortOrder::Desc
            } else {
                SortOrder::Asc
            },
    {
        let lower = to_lowercase(v);
        let desc = String::from_str("desc");
        if lower == desc {
            Self::Desc
        } else {
            Self::Asc
        }
    }

    /// The direction as a query takes it.
    pub fn as_sql(&self) -> (sql: &'static str)
        ensures
            sql@ == match *self {
                SortOrder::Desc => " DESC"@,
                SortOrder::Asc => " ASC"@,
            },
    {
        match self {
            Self::Desc => " DESC",
            Self::Asc => " ASC",
        }
    }
}

} // verus!
