use vstd::prelude::*;

verus! {

/// The largest first row that still fills the window: `max(0, len - rows)`.
pub open spec fn max_start(list_len: int, visible_rows: int) -> int {
    if list_len > visible_rows {
        list_len - visible_rows
    } else {
        0
    }
}

/// First row of the window after the selection moved to `selected`: scroll
/// just enough to keep it in view, then keep the window within the list.
pub open spec fn follow(selected: int, list_len: int, visible_rows: int, prev_start: int) -> int {
    let raw = if selected < prev_start {
        selected
    } else if selected >= prev_start + visible_rows {
        selected - visible_rows + 1
    } else {
        prev_start
    };
    if raw > max_start(list_len, visible_rows) {
        max_start(list_len, visible_rows)
    } else if raw < 0 {
        0
    } else {
        raw
    }
}

/// The window starting at `start` shows `selected` and does not scroll past the list's end.
pub open spec fn window_ok(selected: int, list_len: int, visible_rows: int, start: int) -> bool {
    &&& 0 <= start <= max_start(list_len, visible_rows)
    &&& (visible_rows > 0 && list_len > 0 ==> start <= selected < start + visible_rows)
}

/// New first row of the list window after the selection moved to `selected`.
pub fn scroll_viewport(selected: usize, list_len: usize, visible_rows: usize, prev_start: usize) -> (r: usize)
    ensures
        r == follow(selected as int, list_len as int, visible_rows as int, prev_start as int),
{
    let top: usize = if list_len > visible_rows { list_len - visible_rows } else { 0 };
    if selected < prev_start {
        if selected > top { top } else { selected }
    } else if visible_rows <= usize::MAX - prev_start && selected >= prev_start + visible_rows {
        let below: usize = selected - visible_rows;
        if below >= top { top } else { below + 1 }
    } else {
        if prev_start > top { top } else { prev_start }
    }
}

/// Whatever the previous window, moving the selection to any row of the list
/// yields a window that shows it and stays within the list.
pub proof fn lemma_follow_keeps_selection_visible(selected: int, list_len: int, visible_rows: int, prev_start: int)
    requires
        0 <= selected < list_len,
        visible_rows >= 0,
        0 <= prev_start,
    ensures
        window_ok(selected, list_len, visible_rows, follow(selected, list_len, visible_rows, prev_start)),
{
}

/// A list no longer than the window is always shown from its first row.
pub proof fn lemma_short_list_starts_at_top(selected: int, list_len: int, visible_rows: int, prev_start: int)
    requires
        list_len <= visible_rows,
    ensures
        follow(selected, list_len, visible_rows, prev_start) == 0,
{
}

} // verus!
