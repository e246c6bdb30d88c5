use crate::error::{CliError, ErrorView};
use crate::text::{
    concat, concat3, cut_text, decimal_text, u64_to_string,
};
use crate::tools::fe::routine_load::models::RoutineLoadJob;
use crate::ui::utils::FormatHelper;
use vstd::prelude::*;
use vstd::utf8::{encode_utf8, is_char_boundary};

verus! {

/// How an item of a selection list is written.
pub trait ItemFormatter<T> {
    /// Whether the item can be written.
    spec fn can_format(&self, item: &T) -> bool;

    /// The text of the item.
    spec fn item_text(&self, item: &T) -> Seq<char>;

    /// The text of the item.
    fn format_item(&self, item: &T) -> (r: String)
        requires
            self.can_format(item),
        ensures
            r@ == self.item_text(item),
    ;
}

/// A list from which the operator chooses one item, shown a page at a time.
pub struct InteractiveSelector<T> {
    items: Vec<T>,
    title: String,
    page_size: usize,
}

/// A key that a selection list answers to.
#[derive(Debug, Clone, Copy, PartialEq, Eq, Structural)]
pub enum SelectorKey {
    Enter,
    ArrowUp,
    ArrowDown,
    ArrowLeft,
    ArrowRight,
    /// A decimal digit that was typed.
    Digit(u8),
    /// Any other key.
    Other,
}

/// What a selection list does after a key.
#[derive(Debug, Clone, Copy, PartialEq, Eq, Structural)]
pub enum SelectorStep {
    /// The item with this index is now marked.
    Marked(usize),
    /// The item with this index was chosen.
    Chosen(usize),
}

/// How many items a page shows: the page size, but no more than there are items,
/// and at least one.
pub open spec fn page_len(page_size: usize, len: usize) -> int {
    let n = if page_size < len {
        page_size
    } else {
        len
    };
    if n < 1 {
        1
    } else {
        n as int
    }
}

/// How many pages there are.
pub open spec fn page_count(page_size: usize, len: usize) -> int {
    (len + page_len(page_size, len) - 1) / page_len(page_size, len)
}

/// The item that is marked after a key, in a list of `len` items of which the
/// item `selection` is marked. The arrows up and down move the mark by one,
/// round the ends; the arrows left and right move it to the first item of the
/// page before and after; a digit marks the item with that number on the page,
/// counted from one, where there is one.
pub open spec fn marked_after(selection: usize, len: usize, page_size: usize, key: SelectorKey)
    -> int {
    let size = page_len(page_size, len);
    let page = (selection as int) / size;
    match key {
        SelectorKey::ArrowUp => if selection == 0 {
            len - 1
        } else {
            selection - 1
        },
        SelectorKey::ArrowDown => if selection + 1 >= len {
            0
        } else {
            selection + 1
        },
        SelectorKey::ArrowLeft => if page > 0 {
            (page - 1) * size
        } else {
            selection as int
        },
        SelectorKey::ArrowRight => if page + 1 < page_count(page_size, len) {
            if (page + 1) * size >= len {
                len - 1
            } else {
                (page + 1) * size
            }
        } else {
            selection as int
        },
        SelectorKey::Digit(d) => {
            let within = if d == 0 {
                0
            } else {
                d - 1
            };
            if page * size + within < len {
                page * size + within
            } else {
                selection as int
            }
        },
        _ => selection as int,
    }
}

/// What is shown of a page: its number, the number of pages, and the items from
/// `start` up to `end`.
#[derive(Debug, Clone, Copy, PartialEq, Eq, Structural)]
pub struct PageFrame {
    pub current_page: usize,
    pub total_pages: usize,
    pub start: usize,
    pub end: usize,
}

impl<T> InteractiveSelector<T> {
    /// The items of the list.
    pub closed spec fn items_view(&self) -> Seq<T> {
        self.items@
    }

    /// The heading of the list.
    pub closed spec fn title_view(&self) -> Seq<char> {
        self.title@
    }

    /// How many items a page shows at most.
    pub closed spec fn page_size_view(&self) -> usize {
        self.page_size
    }

    /// A list of items under a heading, thirty items to a page.
    pub fn new(items: Vec<T>, title: String) -> (r: Self)
        ensures
            r.items_view() == items@,
            r.title_view() == title@,
            r.page_size_view() == 30,
    {
        InteractiveSelector { items, title, page_size: 30 }
    }

    /// The list with another page size; a page shows at least one item.
    pub fn with_page_size(self, page_size: usize) -> (r: Self)
        ensures
            r.items_view() == self.items_view(),
            r.title_view() == self.title_view(),
            r.page_size_view() == if page_size < 1 {
                1
            } else {
                page_size
            },
    {
        let mut out = self;
        out.page_size = if page_size < 1 {
            1
        } else {
            page_size
        };
        out
    }

    /// The items of the list.
    pub fn items(&self) -> (r: &Vec<T>)
        ensures
            r@ == self.items_view(),
    {
        &self.items
    }

    /// The heading of the list.
    pub fn title(&self) -> (r: &String)
        ensures
            r@ == self.title_view(),
    {
        &self.title
    }

    /// Whether there is something to choose from; it is a failure where the list
    /// is empty.
    pub fn begin(&self) -> (r: Result<usize, CliError>)
        ensures
            self.items_view().len() > 0 ==> r == Ok::<usize, CliError>(0),
            self.items_view().len() == 0 ==> r is Err && r->Err_0@ == ErrorView::InvalidInput(
                "No items to select from"@,
            ),
    {
        if self.items.len() == 0 {
            return Err(CliError::InvalidInput("No items to select from".to_owned()));
        }
        Ok(0)
    }

    /// One step of the choice: what the list does when `key` is pressed while
    /// the item `selection` is marked.
    pub fn select(&self, selection: usize, key: SelectorKey) -> (r: SelectorStep)
        requires
            selection < self.items_view().len(),
        ensures
            match r {
                SelectorStep::Chosen(i) => key == SelectorKey::Enter && i == selection,
                SelectorStep::Marked(i) => key != SelectorKey::Enter && i == marked_after(
                    selection,
                    self.items_view().len() as usize,
                    self.page_size_view(),
                    key,
                ) && i < self.items_view().len(),
            },
    {
        let len = self.items.len();
        let size: usize = if self.page_size < len {
            if self.page_size < 1 {
                1
            } else {
                self.page_size
            }
        } else {
            len
        };
        let page: usize = selection / size;
        assert(page * size <= selection) by (nonlinear_arith)
            requires
                page as int == (selection as int) / (size as int),
                size > 0,
        ;
        match key {
            SelectorKey::Enter => SelectorStep::Chosen(selection),
            SelectorKey::ArrowUp => SelectorStep::Marked(
                if selection == 0 {
                    len - 1
                } else {
                    selection - 1
                },
            ),
            SelectorKey::ArrowDown => SelectorStep::Marked(
                if selection + 1 >= len {
                    0
                } else {
                    selection + 1
                },
            ),
            SelectorKey::ArrowLeft => {
                if page > 0 {
                    assert((page - 1) * size <= page * size) by (nonlinear_arith)
                        requires
                            page > 0,
                            size > 0,
                    ;
                    SelectorStep::Marked((page - 1) * size)
                } else {
                    SelectorStep::Marked(selection)
                }
            },
            SelectorKey::ArrowRight => {
                let total: usize = (len - 1) / size + 1;
                assert(total as int == (len + size - 1) / (size as int)) by (nonlinear_arith)
                    requires
                        total as int == (len - 1) / (size as int) + 1,
                        size > 0,
                        len > 0,
                ;
                if page + 1 < total {
                    assert((page + 1) * size <= len - 1) by (nonlinear_arith)
                        requires
                            page + 1 < total,
                            total as int == (len - 1) / (size as int) + 1,
                            size > 0,
                            len > 0,
                    ;
                    let target = (page + 1) * size;
                    if target >= len {
                        SelectorStep::Marked(len - 1)
                    } else {
                        SelectorStep::Marked(target)
                    }
                } else {
                    SelectorStep::Marked(selection)
                }
            },
            SelectorKey::Digit(d) => {
                let within: usize = if d == 0 {
                    0
                } else {
                    (d - 1) as usize
                };
                let start = page * size;
                if within < len - start {
                    SelectorStep::Marked(start + within)
                } else {
                    SelectorStep::Marked(selection)
                }
            },
            SelectorKey::Other => SelectorStep::Marked(selection),
        }
    }

    /// What is shown of the page on which the item `selection` stands.
    pub fn render_selection_list(&self, selection: usize) -> (r: PageFrame)
        requires
            selection < self.items_view().len(),
        ensures
            r.current_page as int == (selection as int) / page_len(
                self.page_size_view(),
                self.items_view().len() as usize,
            ),
            r.total_pages == page_count(self.page_size_view(), self.items_view().len() as usize),
            r.start == r.current_page * page_len(
                self.page_size_view(),
                self.items_view().len() as usize,
            ),
            r.start <= selection < r.end <= self.items_view().len(),
            r.end - r.start <= page_len(self.page_size_view(), self.items_view().len() as usize),
    {
        let len = self.items.len();
        let size: usize = if self.page_size < len {
            if self.page_size < 1 {
                1
            } else {
                self.page_size
            }
        } else {
            len
        };
        let page: usize = selection / size;
        let total: usize = (len - 1) / size + 1;
        assert(total as int == (len + size - 1) / (size as int)) by (nonlinear_arith)
            requires
                total as int == (len - 1) / (size as int) + 1,
                size > 0,
                len > 0,
        ;
        assert(page * size <= selection && selection < page * size + size) by (nonlinear_arith)
            requires
                page as int == (selection as int) / (size as int),
                size > 0,
        ;
        let start = page * size;
        let end = if len - start < size {
            len
        } else {
            start + size
        };
        PageFrame { current_page: page, total_pages: total, start, end }
    }
}

/// The heading of a page.
pub fn page_title(frame: PageFrame, total_items: usize) -> (r: String)
    requires
        frame.current_page < usize::MAX,
    ensures
        r@ == "Page "@ + decimal_text((frame.current_page + 1) as nat) + "/"@ + decimal_text(
            frame.total_pages as nat,
        ) + "  ("@ + decimal_text(total_items as nat) + " items)"@,
{
    let page = u64_to_string((frame.current_page + 1) as u64);
    let pages = u64_to_string(frame.total_pages as u64);
    let items = u64_to_string(total_items as u64);
    let head = concat3("Page ", page.as_str(), "/");
    let middle = concat3(head.as_str(), pages.as_str(), "  (");
    concat3(middle.as_str(), items.as_str(), " items)")
}

impl ItemFormatter<String> for InteractiveSelector<String> {
    open spec fn can_format(&self, item: &String) -> bool {
        true
    }

    open spec fn item_text(&self, item: &String) -> Seq<char> {
        item@
    }

    fn format_item(&self, item: &String) -> (r: String) {
        item.clone()
    }
}

impl ItemFormatter<RoutineLoadJob> for InteractiveSelector<RoutineLoadJob> {
    open spec fn can_format(&self, job: &RoutineLoadJob) -> bool {
        encode_utf8(job.name@).len() > 32 ==> is_char_boundary(encode_utf8(job.name@), 29)
    }

    open spec fn item_text(&self, job: &RoutineLoadJob) -> Seq<char> {
        job.id@ + " - "@ + cut_text(job.name@, 32, 29, "..."@) + " ("@ + job.state@ + ")"@
    }

    fn format_item(&self, job: &RoutineLoadJob) -> (r: String) {
        let name = FormatHelper::truncate_string(job.name.as_str(), 32);
        let head = concat3(job.id.as_str(), " - ", name.as_str());
        concat3(head.as_str(), " (", job.state.as_str()).concat(")")
    }
}

} // verus!
