//! The tokens of the texts that write and read sessions.
use vstd::prelude::*;
use crate::daemon::database::columns::{
    column_name, entry, listed, separator, Column, Listing, Slot,
};
use crate::daemon::database::sql::{
    agree, is_placeholder, is_word_char, lemma_next_spaces, lemma_next_symbol, lemma_next_word,
    lemma_one_word, lemma_tokens_add, number, spaces, tokens, wordy,
};
use crate::daemon::database::statement::{
    decimal, placeholder, push_decimal, push_placeholder,
};

verus! {

/// The beginning of an `INSERT`.
pub(crate) proof fn lemma_insert_head()
    ensures
        tokens("\n            INSERT INTO sessions (\n                "@) == seq!["INSERT"@, "INTO"@, "sessions"@, "("@],
        "\n            INSERT INTO sessions (\n                "@.len() == 52,
        !is_word_char("\n            INSERT INTO sessions (\n                "@[0]),
        !is_word_char("\n            INSERT INTO sessions (\n                "@[51]),
{
    reveal_strlit("\n            INSERT INTO sessions (\n                ");
    reveal_strlit("INSERT");
    reveal_strlit("INTO");
    reveal_strlit("sessions");
    reveal_strlit("(");
    reveal_with_fuel(agree, 9);
    reveal_with_fuel(wordy, 9);
    reveal_with_fuel(spaces, 18);
    let text = "\n            INSERT INTO sessions (\n                "@;
    lemma_next_word(text, 0, 13, "INSERT"@);
    lemma_next_word(text, 19, 1, "INTO"@);
    lemma_next_word(text, 24, 1, "sessions"@);
    lemma_next_symbol(text, 33, 1, "("@);
    lemma_next_spaces(text, 35, 17);
    assert(tokens(text) =~= seq!["INSERT"@, "INTO"@, "sessions"@, "("@]);
}

/// What stands between the names and the values of an `INSERT`.
pub(crate) proof fn lemma_insert_middle()
    ensures
        tokens("\n            ) VALUES (\n                "@) == seq![")"@, "VALUES"@, "("@],
        "\n            ) VALUES (\n                "@.len() == 40,
        !is_word_char("\n            ) VALUES (\n                "@[0]),
        !is_word_char("\n            ) VALUES (\n                "@[39]),
{
    reveal_strlit("\n            ) VALUES (\n                ");
    reveal_strlit(")");
    reveal_strlit("VALUES");
    reveal_strlit("(");
    reveal_with_fuel(agree, 7);
    reveal_with_fuel(wordy, 7);
    reveal_with_fuel(spaces, 18);
    let text = "\n            ) VALUES (\n                "@;
    lemma_next_symbol(text, 0, 13, ")"@);
    lemma_next_word(text, 14, 1, "VALUES"@);
    lemma_next_symbol(text, 21, 1, "("@);
    lemma_next_spaces(text, 23, 17);
    assert(tokens(text) =~= seq![")"@, "VALUES"@, "("@]);
}

/// The end of an `INSERT`.
pub(crate) proof fn lemma_insert_tail()
    ensures
        tokens("\n            ) RETURNING id\n            "@) == seq![")"@, "RETURNING"@, "id"@],
        "\n            ) RETURNING id\n            "@.len() == 40,
        !is_word_char("\n            ) RETURNING id\n            "@[0]),
        !is_word_char("\n            ) RETURNING id\n            "@[39]),
{
    reveal_strlit("\n            ) RETURNING id\n            ");
    reveal_strlit(")");
    reveal_strlit("RETURNING");
    reveal_strlit("id");
    reveal_with_fuel(agree, 10);
    reveal_with_fuel(wordy, 10);
    reveal_with_fuel(spaces, 14);
    let text = "\n            ) RETURNING id\n            "@;
    lemma_next_symbol(text, 0, 13, ")"@);
    lemma_next_word(text, 14, 1, "RETURNING"@);
    lemma_next_word(text, 24, 1, "id"@);
    lemma_next_spaces(text, 27, 13);
    assert(tokens(text) =~= seq![")"@, "RETURNING"@, "id"@]);
}

/// The beginning of an `UPDATE`.
pub(crate) proof fn lemma_update_head()
    ensures
        tokens("\n            UPDATE sessions SET\n                "@) == seq!["UPDATE"@, "sessions"@, "SET"@],
        "\n            UPDATE sessions SET\n                "@.len() == 49,
        !is_word_char("\n            UPDATE sessions SET\n                "@[0]),
        !is_word_char("\n            UPDATE sessions SET\n                "@[48]),
{
    reveal_strlit("\n            UPDATE sessions SET\n                ");
    reveal_strlit("UPDATE");
    reveal_strlit("sessions");
    reveal_strlit("SET");
    reveal_with_fuel(agree, 9);
    reveal_with_fuel(wordy, 9);
    reveal_with_fuel(spaces, 18);
    let text = "\n            UPDATE sessions SET\n                "@;
    lemma_next_word(text, 0, 13, "UPDATE"@);
    lemma_next_word(text, 19, 1, "sessions"@);
    lemma_next_word(text, 28, 1, "SET"@);
    lemma_next_spaces(text, 32, 17);
    assert(tokens(text) =~= seq!["UPDATE"@, "sessions"@, "SET"@]);
}

/// The condition of an `UPDATE`, up to its parameter.
pub(crate) proof fn lemma_update_where()
    ensures
        tokens("\n            WHERE id = "@) == seq!["WHERE"@, "id"@, "="@],
        "\n            WHERE id = "@.len() == 24,
        !is_word_char("\n            WHERE id = "@[0]),
        !is_word_char("\n            WHERE id = "@[23]),
{
    reveal_strlit("\n            WHERE id = ");
    reveal_strlit("WHERE");
    reveal_strlit("id");
    reveal_strlit("=");
    reveal_with_fuel(agree, 6);
    reveal_with_fuel(wordy, 6);
    reveal_with_fuel(spaces, 14);
    let text = "\n            WHERE id = "@;
    lemma_next_word(text, 0, 13, "WHERE"@);
    lemma_next_word(text, 18, 1, "id"@);
    lemma_next_symbol(text, 21, 1, "="@);
    lemma_next_spaces(text, 23, 1);
    assert(tokens(text) =~= seq!["WHERE"@, "id"@, "="@]);
}

/// A comma and a new line.
pub(crate) proof fn lemma_comma_line()
    ensures
        tokens(",\n                "@) == seq![","@],
        ",\n                "@.len() == 18,
        !is_word_char(",\n                "@[0]),
        !is_word_char(",\n                "@[17]),
{
    reveal_strlit(",\n                ");
    reveal_strlit(",");
    reveal_with_fuel(agree, 2);
    reveal_with_fuel(wordy, 2);
    reveal_with_fuel(spaces, 18);
    let text = ",\n                "@;
    lemma_next_symbol(text, 0, 0, ","@);
    lemma_next_spaces(text, 1, 17);
    assert(tokens(text) =~= seq![","@]);
}

/// A comma and a space.
pub(crate) proof fn lemma_comma()
    ensures
        tokens(", "@) == seq![","@],
        ", "@.len() == 2,
        !is_word_char(", "@[0]),
        !is_word_char(", "@[1]),
{
    reveal_strlit(", ");
    reveal_strlit(",");
    reveal_with_fuel(agree, 2);
    reveal_with_fuel(wordy, 2);
    reveal_with_fuel(spaces, 2);
    let text = ", "@;
    lemma_next_symbol(text, 0, 0, ","@);
    lemma_next_spaces(text, 1, 1);
    assert(tokens(text) =~= seq![","@]);
}

/// An equals sign between spaces.
pub(crate) proof fn lemma_equals()
    ensures
        tokens(" = "@) == seq!["="@],
        " = "@.len() == 3,
        !is_word_char(" = "@[0]),
        !is_word_char(" = "@[2]),
{
    reveal_strlit(" = ");
    reveal_strlit("=");
    reveal_with_fuel(agree, 2);
    reveal_with_fuel(wordy, 2);
    reveal_with_fuel(spaces, 2);
    let text = " = "@;
    lemma_next_symbol(text, 0, 1, "="@);
    lemma_next_spaces(text, 2, 1);
    assert(tokens(text) =~= seq!["="@]);
}

/// The beginning of a query.
pub(crate) proof fn lemma_select()
    ensures
        tokens("SELECT "@) == seq!["SELECT"@],
        "SELECT "@.len() == 7,
        is_word_char("SELECT "@[0]),
        !is_word_char("SELECT "@[6]),
{
    reveal_strlit("SELECT ");
    reveal_strlit("SELECT");
    reveal_with_fuel(agree, 7);
    reveal_with_fuel(wordy, 7);
    reveal_with_fuel(spaces, 2);
    let text = "SELECT "@;
    lemma_next_word(text, 0, 0, "SELECT"@);
    lemma_next_spaces(text, 6, 1);
    assert(tokens(text) =~= seq!["SELECT"@]);
}

/// The middle of a query for sessions.
pub(crate) proof fn lemma_from_sessions()
    ensures
        tokens(" FROM sessions WHERE "@) == seq!["FROM"@, "sessions"@, "WHERE"@],
        " FROM sessions WHERE "@.len() == 21,
        !is_word_char(" FROM sessions WHERE "@[0]),
        !is_word_char(" FROM sessions WHERE "@[20]),
{
    reveal_strlit(" FROM sessions WHERE ");
    reveal_strlit("FROM");
    reveal_strlit("sessions");
    reveal_strlit("WHERE");
    reveal_with_fuel(agree, 9);
    reveal_with_fuel(wordy, 9);
    reveal_with_fuel(spaces, 2);
    let text = " FROM sessions WHERE "@;
    lemma_next_word(text, 0, 1, "FROM"@);
    lemma_next_word(text, 5, 1, "sessions"@);
    lemma_next_word(text, 14, 1, "WHERE"@);
    lemma_next_spaces(text, 20, 1);
    assert(tokens(text) =~= seq!["FROM"@, "sessions"@, "WHERE"@]);
}

/// The first condition of a query for sessions, from its operator on.
pub(crate) proof fn lemma_first_parameter_and()
    ensures
        tokens(" = $1 AND "@) == seq!["="@, "$1"@, "AND"@],
        " = $1 AND "@.len() == 10,
        !is_word_char(" = $1 AND "@[0]),
        !is_word_char(" = $1 AND "@[9]),
{
    reveal_strlit(" = $1 AND ");
    reveal_strlit("=");
    reveal_strlit("$1");
    reveal_strlit("AND");
    reveal_with_fuel(agree, 4);
    reveal_with_fuel(wordy, 4);
    reveal_with_fuel(spaces, 2);
    let text = " = $1 AND "@;
    lemma_next_symbol(text, 0, 1, "="@);
    lemma_next_word(text, 2, 1, "$1"@);
    lemma_next_word(text, 5, 1, "AND"@);
    lemma_next_spaces(text, 9, 1);
    assert(tokens(text) =~= seq!["="@, "$1"@, "AND"@]);
}

/// The second condition of a query for sessions, from its operator on.
pub(crate) proof fn lemma_is_set()
    ensures
        tokens(" IS NOT NULL LIMIT 1"@) == seq!["IS"@, "NOT"@, "NULL"@, "LIMIT"@, "1"@],
        " IS NOT NULL LIMIT 1"@.len() == 20,
        !is_word_char(" IS NOT NULL LIMIT 1"@[0]),
        is_word_char(" IS NOT NULL LIMIT 1"@[19]),
{
    reveal_strlit(" IS NOT NULL LIMIT 1");
    reveal_strlit("IS");
    reveal_strlit("NOT");
    reveal_strlit("NULL");
    reveal_strlit("LIMIT");
    reveal_strlit("1");
    reveal_with_fuel(agree, 6);
    reveal_with_fuel(wordy, 6);
    reveal_with_fuel(spaces, 2);
    let text = " IS NOT NULL LIMIT 1"@;
    lemma_next_word(text, 0, 1, "IS"@);
    lemma_next_word(text, 3, 1, "NOT"@);
    lemma_next_word(text, 7, 1, "NULL"@);
    lemma_next_word(text, 12, 1, "LIMIT"@);
    lemma_next_word(text, 18, 1, "1"@);
    lemma_next_spaces(text, 20, 0);
    assert(tokens(text) =~= seq!["IS"@, "NOT"@, "NULL"@, "LIMIT"@, "1"@]);
}

/// Spaces have no tokens.
pub(crate) proof fn lemma_line_end()
    ensures
        tokens("\n            "@) == Seq::<Seq<char>>::empty(),
        "\n            "@.len() == 13,
        !is_word_char("\n            "@[0]),
{
    reveal_strlit("\n            ");
    reveal_with_fuel(spaces, 14);
    lemma_next_spaces("\n            "@, 0, 13);
}

/// The name of a column is a word.
pub(crate) proof fn lemma_column_word(column: Column)
    ensures
        column_name(column).len() > 0,
        wordy(column_name(column), column_name(column).len()),
        tokens(column_name(column)) == seq![column_name(column)],
{
    reveal_with_fuel(wordy, 28);
    match column {
        Column::AppName => {
            reveal_strlit("app_name");
        },
        Column::WindowName => {
            reveal_strlit("window_name");
        },
        Column::StartTime => {
            reveal_strlit("start_time");
        },
        Column::Duration => {
            reveal_strlit("duration");
        },
        Column::Category => {
            reveal_strlit("category");
        },
        Column::BrowserUrl => {
            reveal_strlit("browser_url");
        },
        Column::BrowserPageTitle => {
            reveal_strlit("browser_page_title");
        },
        Column::BrowserNotificationCount => {
            reveal_strlit("browser_notification_count");
        },
        Column::BrowserPageTitleRenamed => {
            reveal_strlit("browser_page_title_renamed");
        },
        Column::BrowserPageTitleCategory => {
            reveal_strlit("browser_page_title_category");
        },
        Column::TerminalUsername => {
            reveal_strlit("terminal_username");
        },
        Column::TerminalHostname => {
            reveal_strlit("terminal_hostname");
        },
        Column::TerminalDirectory => {
            reveal_strlit("terminal_directory");
        },
        Column::TerminalProjectName => {
            reveal_strlit("terminal_project_name");
        },
        Column::TerminalDirectoryRenamed => {
            reveal_strlit("terminal_directory_renamed");
        },
        Column::TerminalDirectoryCategory => {
            reveal_strlit("terminal_directory_category");
        },
        Column::EditorFilename => {
            reveal_strlit("editor_filename");
        },
        Column::EditorFilepath => {
            reveal_strlit("editor_filepath");
        },
        Column::EditorProjectPath => {
            reveal_strlit("editor_project_path");
        },
        Column::EditorLanguage => {
            reveal_strlit("editor_language");
        },
        Column::EditorFilenameRenamed => {
            reveal_strlit("editor_filename_renamed");
        },
        Column::EditorFilenameCategory => {
            reveal_strlit("editor_filename_category");
        },
        Column::TmuxWindowName => {
            reveal_strlit("tmux_window_name");
        },
        Column::TmuxPaneCount => {
            reveal_strlit("tmux_pane_count");
        },
        Column::TerminalMultiplexer => {
            reveal_strlit("terminal_multiplexer");
        },
        Column::TmuxWindowNameRenamed => {
            reveal_strlit("tmux_window_name_renamed");
        },
        Column::TmuxWindowNameCategory => {
            reveal_strlit("tmux_window_name_category");
        },
        Column::IdeProjectName => {
            reveal_strlit("ide_project_name");
        },
        Column::IdeFileOpen => {
            reveal_strlit("ide_file_open");
        },
        Column::IdeWorkspace => {
            reveal_strlit("ide_workspace");
        },
        Column::ParsedData => {
            reveal_strlit("parsed_data");
        },
        Column::ParsingSuccess => {
            reveal_strlit("parsing_success");
        },
        Column::IsAfk => {
            reveal_strlit("is_afk");
        },
        Column::IsIdle => {
            reveal_strlit("is_idle");
        },
        Column::IdleAccumulationSecs => {
            reveal_strlit("idle_accumulation_secs");
        },
    }
    lemma_one_word(column_name(column));
}

proof fn lemma_wordy_from_chars(word: Seq<char>, n: nat)
    requires
        n <= word.len(),
        forall|i: int| 0 <= i < n ==> is_word_char(#[trigger] word[i]),
    ensures
        wordy(word, n),
    decreases n,
{
    if n > 0 {
        lemma_wordy_from_chars(word, (n - 1) as nat);
    }
}

/// The decimal digits of a number write that number.
pub(crate) proof fn lemma_decimal(n: nat)
    ensures
        decimal(n).len() > 0,
        number(decimal(n)) == n,
        forall|i: int| 0 <= i < decimal(n).len() ==> '0' <= #[trigger] decimal(n)[i] <= '9',
        n > 0 ==> decimal(n)[0] != '0',
    decreases n,
{
    let digits = decimal(n);
    if n >= 10 {
        lemma_decimal(n / 10);
        assert(digits.drop_last() =~= decimal(n / 10));
        assert(digits[0] == decimal(n / 10)[0]);
        assert(digits.last() as int - '0' as int == n % 10);
        assert forall|i: int| 0 <= i < digits.len() implies '0' <= #[trigger] digits[i]
            <= '9' by {
            if i < digits.len() - 1 {
                assert(digits[i] == decimal(n / 10)[i]);
            }
        }
    } else {
        assert(digits.drop_last() =~= Seq::empty());
        assert(number(digits.drop_last()) == 0);
        assert(digits.last() as int - '0' as int == n);
    }
}

/// A placeholder is a word and names its parameter.
pub(crate) proof fn lemma_placeholder(n: nat, count: nat)
    requires
        1 <= n <= count,
    ensures
        is_placeholder(placeholder(n), count),
        number(placeholder(n).skip(1)) == n,
        tokens(placeholder(n)) == seq![placeholder(n)],
        placeholder(n).len() > 0,
{
    reveal_strlit("$");
    lemma_decimal(n);
    let word = placeholder(n);
    assert(word.skip(1) =~= decimal(n));
    assert forall|i: int| 1 <= i < word.len() implies '0' <= #[trigger] word[i] <= '9' by {
        assert(word[i] == decimal(n)[i - 1]);
    }
    assert forall|i: int| 0 <= i < word.len() implies is_word_char(#[trigger] word[i]) by {}
    lemma_wordy_from_chars(word, word.len());
    lemma_one_word(word);
}

/// A number is appended in decimal: its digits, without leading zeros, write it.
pub proof fn law_number_in_decimal(out: &mut String, n: usize)
    requires
        call_ensures(push_decimal, (out, n), ()),
    ensures
        ({
            let length = old(out)@.len() as int;
            let digits = final(out)@.skip(length);
            &&& final(out)@.take(length) == old(out)@
            &&& digits.len() > 0
            &&& forall|i: int| 0 <= i < digits.len() ==> '0' <= #[trigger] digits[i] <= '9'
            &&& number(digits) == n
            &&& n > 0 ==> digits[0] != '0'
        }),
{
    lemma_decimal(n as nat);
    let length = old(out)@.len() as int;
    assert(final(out)@.take(length) =~= old(out)@);
    assert(final(out)@.skip(length) =~= decimal(n as nat));
}

/// The placeholder that is appended for a parameter names that parameter.
pub proof fn law_placeholder_names_its_parameter(out: &mut String, n: usize, count: nat)
    requires
        call_ensures(push_placeholder, (out, n), ()),
        1 <= n <= count,
    ensures
        ({
            let length = old(out)@.len() as int;
            let word = final(out)@.skip(length);
            &&& final(out)@.take(length) == old(out)@
            &&& is_placeholder(word, count)
            &&& number(word.skip(1)) == n
        }),
{
    lemma_placeholder(n as nat, count);
    let length = old(out)@.len() as int;
    assert(final(out)@.take(length) =~= old(out)@);
    assert(final(out)@.skip(length) =~= placeholder(n as nat));
}

/// What separates the columns of a list is a comma, which no word runs through.
proof fn lemma_separator(slots: Seq<Slot>, i: int)
    requires
        i > 0,
    ensures
        tokens(separator(slots, i)) == seq![","@],
        separator(slots, i).len() > 0,
        !is_word_char(separator(slots, i)[0]),
        !is_word_char(separator(slots, i).last()),
{
    lemma_comma_line();
    lemma_comma();
}

/// The tokens of a column's assignment.
proof fn lemma_assignment(slots: Seq<Slot>, i: int)
    requires
        i >= 0,
    ensures
        tokens(entry(slots, Listing::Assignments, i)) == seq![
            column_name(slots[i].column),
            "="@,
            placeholder((i + 1) as nat),
        ],
{
    let name = column_name(slots[i].column);
    let number = placeholder((i + 1) as nat);
    lemma_column_word(slots[i].column);
    lemma_placeholder((i + 1) as nat, (i + 1) as nat);
    lemma_equals();
    lemma_tokens_add(name, " = "@);
    lemma_tokens_add(name + " = "@, number);
    assert(tokens(name + " = "@ + number) =~= seq![name, "="@, number]);
}

/// The tokens of a list of names: the names, with commas between them.
pub(crate) proof fn lemma_names(slots: Seq<Slot>, n: nat)
    requires
        n > 0,
    ensures
        tokens(listed(slots, Listing::Names, n)).len() == 2 * n - 1,
        forall|i: int|
            0 <= i < n ==> tokens(listed(slots, Listing::Names, n))[2 * i] == column_name(
                (#[trigger] slots[i]).column,
            ),
        forall|i: int|
            0 <= i < n - 1 ==> #[trigger] tokens(listed(slots, Listing::Names, n))[2 * i + 1]
                == ","@,
    decreases n,
{
    let before = listed(slots, Listing::Names, (n - 1) as nat);
    let gap = separator(slots, n - 1);
    let word = entry(slots, Listing::Names, n - 1);
    lemma_column_word(slots[n - 1].column);
    if n == 1 {
        assert(before + gap + word =~= word);
    } else {
        lemma_names(slots, (n - 1) as nat);
        lemma_separator(slots, n - 1);
        lemma_tokens_add(before, gap);
        lemma_tokens_add(before + gap, word);
        let earlier = tokens(before);
        assert(tokens(before + gap + word) =~= earlier.push(","@).push(word));
        assert forall|i: int| 0 <= i < n - 1 implies #[trigger] tokens(before + gap + word)[2 * i
            + 1] == ","@ by {
            if i < n - 2 {
                assert(earlier[2 * i + 1] == ","@);
            }
        }
    }
}

/// The tokens of a list of placeholders: the placeholders, with commas between
/// them.
pub(crate) proof fn lemma_placeholders(slots: Seq<Slot>, n: nat)
    requires
        n > 0,
    ensures
        tokens(listed(slots, Listing::Placeholders, n)).len() == 2 * n - 1,
        forall|i: int|
            0 <= i < n ==> #[trigger] tokens(listed(slots, Listing::Placeholders, n))[2 * i]
                == placeholder((i + 1) as nat),
        forall|i: int|
            0 <= i < n - 1 ==> #[trigger] tokens(listed(slots, Listing::Placeholders, n))[2 * i + 1]
                == ","@,
    decreases n,
{
    let before = listed(slots, Listing::Placeholders, (n - 1) as nat);
    let gap = separator(slots, n - 1);
    let word = entry(slots, Listing::Placeholders, n - 1);
    lemma_placeholder(n, n);
    if n == 1 {
        assert(before + gap + word =~= word);
    } else {
        lemma_placeholders(slots, (n - 1) as nat);
        lemma_separator(slots, n - 1);
        lemma_tokens_add(before, gap);
        lemma_tokens_add(before + gap, word);
        let earlier = tokens(before);
        assert(tokens(before + gap + word) =~= earlier.push(","@).push(word));
        assert forall|i: int| 0 <= i < n implies #[trigger] tokens(before + gap + word)[2 * i]
            == placeholder((i + 1) as nat) by {
            if i < n - 1 {
                assert(earlier[2 * i] == placeholder((i + 1) as nat));
            }
        }
        assert forall|i: int| 0 <= i < n - 1 implies #[trigger] tokens(before + gap + word)[2 * i
            + 1] == ","@ by {
            if i < n - 2 {
                assert(earlier[2 * i + 1] == ","@);
            }
        }
    }
}

/// The tokens of a list of assignments: name, equals sign and placeholder, with
/// commas between the assignments.
pub(crate) proof fn lemma_assignments(slots: Seq<Slot>, n: nat)
    requires
        n > 0,
    ensures
        tokens(listed(slots, Listing::Assignments, n)).len() == 4 * n - 1,
        forall|i: int|
            0 <= i < n ==> {
                let found = tokens(listed(slots, Listing::Assignments, n));
                &&& found[4 * i] == column_name((#[trigger] slots[i]).column)
                &&& found[4 * i + 1] == "="@
                &&& found[4 * i + 2] == placeholder((i + 1) as nat)
                &&& i < n - 1 ==> found[4 * i + 3] == ","@
            },
    decreases n,
{
    let before = listed(slots, Listing::Assignments, (n - 1) as nat);
    let gap = separator(slots, n - 1);
    let word = entry(slots, Listing::Assignments, n - 1);
    lemma_assignment(slots, n - 1);
    lemma_column_word(slots[n - 1].column);
    if n == 1 {
        assert(before + gap + word =~= word);
    } else {
        lemma_assignments(slots, (n - 1) as nat);
        lemma_separator(slots, n - 1);
        lemma_tokens_add(before, gap);
        lemma_tokens_add(before + gap, word);
        let earlier = tokens(before);
        let found = tokens(before + gap + word);
        assert(found =~= earlier.push(","@) + tokens(word));
        assert forall|i: int| 0 <= i < n implies {
            &&& found[4 * i] == column_name((#[trigger] slots[i]).column)
            &&& found[4 * i + 1] == "="@
            &&& found[4 * i + 2] == placeholder((i + 1) as nat)
            &&& i < n - 1 ==> found[4 * i + 3] == ","@
        } by {
            if i < n - 1 {
                assert(earlier[4 * i] == column_name(slots[i].column));
                assert(found[4 * i] == earlier[4 * i]);
                assert(found[4 * i + 1] == earlier[4 * i + 1]);
                assert(found[4 * i + 2] == earlier[4 * i + 2]);
                if i < n - 2 {
                    assert(found[4 * i + 3] == earlier[4 * i + 3]);
                }
            } else {
                assert(found[4 * i] == tokens(word)[0]);
                assert(found[4 * i + 1] == tokens(word)[1]);
                assert(found[4 * i + 2] == tokens(word)[2]);
            }
        }
    }
}

} // verus!
