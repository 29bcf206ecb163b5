//! The page buttons of a paginated view: the pages around the current one,
//! the first and last pages, and ellipses over the gaps.
use vstd::prelude::*;

verus! {

/// How many pages on each side of the current page get a button.
pub const PAGES_AROUND: u64 = 2;

/// One button of the page navigation.
#[derive(Clone, Copy, Debug, PartialEq, Eq, Structural)]
pub enum PageElement {
    /// A button to the page with this number, counted from 1.
    Page(u64),
    /// A gap of pages without buttons.
    Ellipsis,
}

/// `a - b`, stopped at 0.
pub open spec fn sat_sub(a: u64, b: u64) -> u64 {
    if a >= b {
        (a - b) as u64
    } else {
        0
    }
}

/// `a + b`, stopped at `u64::MAX`.
pub open spec fn sat_add(a: u64, b: u64) -> u64 {
    if a + b <= u64::MAX {
        (a + b) as u64
    } else {
        u64::MAX
    }
}

/// Buttons for the pages `first..=last`, in order.
pub open spec fn page_run(first: int, last: int) -> Seq<PageElement> {
    Seq::new(
        if first <= last {
            (last - first + 1) as nat
        } else {
            0nat
        },
        |i: int| PageElement::Page((first + i) as u64),
    )
}

/// The navigation for page `current` of `num_pages`: a button to page 1 and an
/// ellipsis when page 1 lies more than the window away, the existing pages
/// within `PAGES_AROUND` of `current`, and an ellipsis (when a gap is left)
/// and a button to the last page when the last page lies past the window.
pub open spec fn page_elements(current: u64, num_pages: u64) -> Seq<PageElement> {
    let low = sat_sub(current, PAGES_AROUND);
    let high = sat_add(current, PAGES_AROUND);
    let head = if 1 < low {
        seq![PageElement::Page(1), PageElement::Ellipsis]
    } else {
        Seq::<PageElement>::empty()
    };
    let first = if low < 1 {
        1int
    } else {
        low as int
    };
    let last = if high < num_pages {
        high as int
    } else {
        num_pages as int
    };
    let tail = if num_pages > high {
        if num_pages > high + 1 {
            seq![PageElement::Ellipsis, PageElement::Page(num_pages)]
        } else {
            seq![PageElement::Page(num_pages)]
        }
    } else {
        Seq::<PageElement>::empty()
    };
    head + page_run(first, last) + tail
}

/// The page buttons for page `current_page` of `num_pages`.
pub fn build_page_elements(current_page: u64, num_pages: u64) -> (r: Vec<PageElement>)
    requires
        current_page >= 1,
        num_pages >= 1,
    ensures
        r@ == page_elements(current_page, num_pages),
{
    let mut pages: Vec<PageElement> = Vec::new();
    let low = current_page.saturating_sub(PAGES_AROUND);
    let high = current_page.saturating_add(PAGES_AROUND);
    if 1 < low {
        pages.push(PageElement::Page(1));
        pages.push(PageElement::Ellipsis);
    }
    let ghost head = pages@;
    let first = if low < 1 {
        1
    } else {
        low
    };
    let last = if high < num_pages {
        high
    } else {
        num_pages
    };
    if first <= last {
        let count = last - first;
        let mut i: u64 = 0;
        while i <= count
            invariant_except_break
                i <= count,
                pages@ == head + page_run(first as int, first + i - 1),
            invariant
                first <= last,
                count == last - first,
            ensures
                pages@ == head + page_run(first as int, last as int),
            decreases count + 1 - i,
        {
            pages.push(PageElement::Page(first + i));
            proof {
                assert(pages@ =~= head + page_run(first as int, first + i));
            }
            if i == count {
                break;
            }
            i += 1;
        }
    } else {
        assert(pages@ =~= head + page_run(first as int, last as int));
    }
    if num_pages > high {
        if num_pages > high + 1 {
            pages.push(PageElement::Ellipsis);
        }
        pages.push(PageElement::Page(num_pages));
    }
    assert(pages@ =~= page_elements(current_page, num_pages));
    pages
}

} // verus!
