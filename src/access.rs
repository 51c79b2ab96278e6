//! Who may use the bot, and how project choices are laid out.

use vstd::prelude::*;

use crate::log_router::strings_view;

verus! {

/// The chats and users the bot answers in private mode.
pub struct ApplicationConfig {
    pub allowed_users_id: Vec<i64>,
    pub allowed_chats_id: Vec<i64>,
    pub private_mode: bool,
}

/// Whether `id` is in `ids`.
pub fn contains_id(ids: &Vec<i64>, id: i64) -> (r: bool)
    ensures
        r == ids@.contains(id),
{
    let mut i: usize = 0;
    while i < ids.len()
        invariant
            i <= ids.len(),
            forall|j: int| 0 <= j < i ==> ids@[j] != id,
        decreases ids.len() - i,
    {
        if ids[i] == id {
            return true;
        }
        i = i + 1;
    }
    false
}

impl ApplicationConfig {
    pub open spec fn spec_is_id_allowed(&self, id: i64) -> bool {
        self.allowed_users_id@.contains(id) || self.allowed_chats_id@.contains(id)
    }

    /// Turns private mode on or off.
    pub fn set_access_mode(&mut self, access: bool) -> (r: &mut Self)
        ensures
            r.private_mode == access,
            r.allowed_users_id == old(self).allowed_users_id,
            r.allowed_chats_id == old(self).allowed_chats_id,
            *final(self) == *final(r),
    {
        self.private_mode = access;
        self
    }

    /// Whether `id` is listed as an allowed user or chat.
    pub fn is_id_allowed(&self, id: i64) -> (r: bool)
        ensures
            r == self.spec_is_id_allowed(id),
    {
        contains_id(&self.allowed_users_id, id) || contains_id(&self.allowed_chats_id, id)
    }

    /// Whether a message from the chat `chat_id` is answered: always outside
    /// private mode, and in it only for listed ids.
    pub fn accepts(&self, chat_id: i64) -> (r: bool)
        ensures
            r == (!self.private_mode || self.spec_is_id_allowed(chat_id)),
    {
        !self.private_mode || self.is_id_allowed(chat_id)
    }
}

pub open spec fn min(a: int, b: int) -> int {
    if a < b {
        a
    } else {
        b
    }
}

pub open spec fn rows_view(rows: Seq<Vec<String>>) -> Seq<Seq<Seq<char>>> {
    rows.map_values(|row: Vec<String>| strings_view(row@))
}

/// The project names laid out in rows of three, in order; the last row
/// holds what is left.
pub fn keyboard_rows(names: &Vec<String>) -> (r: Vec<Vec<String>>)
    ensures
        r@.len() == (names@.len() + 2) / 3,
        forall|j: int|
            0 <= j < r@.len() ==> #[trigger] rows_view(r@)[j] == strings_view(names@).subrange(
                3 * j,
                min(3 * j + 3, names@.len() as int),
            ),
{
    let n = names.len();
    let mut rows: Vec<Vec<String>> = Vec::new();
    let mut i: usize = 0;
    while i < n
        invariant
            n == names@.len(),
            i <= n,
            i < n ==> i == 3 * rows@.len(),
            i == n ==> rows@.len() == (n + 2) / 3,
            forall|j: int|
                0 <= j < rows@.len() ==> #[trigger] rows_view(rows@)[j] == strings_view(
                    names@,
                ).subrange(3 * j, min(3 * j + 3, n as int)),
        decreases n - i,
    {
        let end: usize = if n - i < 3 {
            n
        } else {
            i + 3
        };
        let mut row: Vec<String> = Vec::new();
        let mut k: usize = i;
        while k < end
            invariant
                i <= k <= end <= n,
                n == names@.len(),
                strings_view(row@) =~= strings_view(names@).subrange(i as int, k as int),
            decreases end - k,
        {
            let ghost before = row@;
            row.push(names[k].clone());
            proof {
                assert(strings_view(row@) =~= strings_view(before).push(names@[k as int]@));
                assert(strings_view(names@).subrange(i as int, k + 1) =~= strings_view(
                    names@,
                ).subrange(i as int, k as int).push(names@[k as int]@));
            }
            k = k + 1;
        }
        let ghost old_rows = rows@;
        rows.push(row);
        proof {
            assert forall|j: int| 0 <= j < rows@.len() implies #[trigger] rows_view(rows@)[j]
                == strings_view(names@).subrange(3 * j, min(3 * j + 3, n as int)) by {
                if j < old_rows.len() {
                    assert(rows_view(rows@)[j] == rows_view(old_rows)[j]);
                }
            }
        }
        i = end;
    }
    rows
}

} // verus!
