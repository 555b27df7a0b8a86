//! What the bot shows: the list of accounts, the overview of offers, the
//! rows of buttons, and the link to a card.

use vstd::prelude::*;
use vstd::string::*;
use crate::api::{short_line, user_line, AuthenticatedUser, Offer, OfferView, UserView};
use crate::cache::{entries_view, CacheEntry, Entries};
use crate::text::{join, joined, texts_view};

verus! {

/// An account in the list: its title between asterisks, an escaped dash,
/// and the user.
pub open spec fn account_line(title: Seq<char>, user: UserView) -> Seq<char> {
    "*"@ + title + "* \\- "@ + user_line(user)
}

/// The accounts of a list, each as title and user.
pub open spec fn accounts_view(accounts: Seq<(String, AuthenticatedUser)>) -> Seq<
    (Seq<char>, UserView),
> {
    accounts.map_values(|a: (String, AuthenticatedUser)| (a.0@, a.1@))
}

/// The list of accounts: one line each, an empty line between two.
pub open spec fn account_list_text(accounts: Seq<(Seq<char>, UserView)>) -> Seq<char> {
    joined(accounts.map_values(|a: (Seq<char>, UserView)| account_line(a.0, a.1)), "\n\n"@)
}

/// Renders the list of accounts.
pub fn account_list(accounts: &Vec<(String, AuthenticatedUser)>) -> (text: String)
    ensures
        text@ == account_list_text(accounts_view(accounts@)),
{
    let ghost lines_of = accounts_view(accounts@).map_values(
        |a: (Seq<char>, UserView)| account_line(a.0, a.1),
    );
    let mut lines: Vec<String> = Vec::new();
    let mut i: usize = 0;
    while i < accounts.len()
        invariant
            i <= accounts.len(),
            lines@.len() == i,
            forall|k: int| 0 <= k < i ==> (#[trigger] lines@[k])@ == account_line(
                accounts@[k].0@,
                accounts@[k].1@,
            ),
        decreases accounts.len() - i,
    {
        let mut line: String = "*".to_owned();
        line.append(accounts[i].0.as_str());
        line.append("* \\- ");
        let user: String = accounts[i].1.display();
        line.append(user.as_str());
        lines.push(line);
        i = i + 1;
    }
    assert(texts_view(lines@) =~= lines_of);
    join(&lines, "\n\n")
}

/// The block of one account in the overview: its title and a colon, then
/// its offers, one line each.
pub open spec fn overview_block(title: Seq<char>, offers: Seq<OfferView>) -> Seq<char> {
    title + ":\n"@ + joined(offers.map_values(|o: OfferView| short_line(o)), "\n"@) + "\n"@
}

/// The overview of all offers: a heading, then one block for each account,
/// an empty line between two.
pub open spec fn overview_text(entries: Entries) -> Seq<char> {
    "Current offers:\n\n"@ + joined(
        entries.map_values(|e: (Seq<char>, Seq<OfferView>)| overview_block(e.0, e.1)),
        "\n"@,
    )
}

fn offer_lines(offers: &Vec<Offer>) -> (text: String)
    ensures
        text@ == joined(
            crate::api::offers_view(offers@).map_values(|o: OfferView| short_line(o)),
            "\n"@,
        ),
{
    let ghost lines_of = crate::api::offers_view(offers@).map_values(
        |o: OfferView| short_line(o),
    );
    let mut lines: Vec<String> = Vec::new();
    let mut i: usize = 0;
    while i < offers.len()
        invariant
            i <= offers.len(),
            lines@.len() == i,
            forall|k: int| 0 <= k < i ==> (#[trigger] lines@[k])@ == short_line(offers@[k]@),
        decreases offers.len() - i,
    {
        lines.push(offers[i].short_display());
        i = i + 1;
    }
    assert(texts_view(lines@) =~= lines_of);
    join(&lines, "\n")
}

/// Renders the overview of the offers that a cache holds.
pub fn offer_overview(entries: &Vec<CacheEntry>) -> (text: String)
    ensures
        text@ == overview_text(entries_view(entries@)),
{
    let ghost blocks_of = entries_view(entries@).map_values(
        |e: (Seq<char>, Seq<OfferView>)| overview_block(e.0, e.1),
    );
    let mut blocks: Vec<String> = Vec::new();
    let mut i: usize = 0;
    while i < entries.len()
        invariant
            i <= entries.len(),
            blocks@.len() == i,
            forall|k: int| 0 <= k < i ==> (#[trigger] blocks@[k])@ == overview_block(
                entries@[k].title@,
                crate::api::offers_view(entries@[k].offers@),
            ),
        decreases entries.len() - i,
    {
        let mut block: String = entries[i].title.clone();
        block.append(":\n");
        let lines: String = offer_lines(&entries[i].offers);
        block.append(lines.as_str());
        block.append("\n");
        blocks.push(block);
        i = i + 1;
    }
    assert(texts_view(blocks@) =~= blocks_of);
    let mut text: String = "Current offers:\n\n".to_owned();
    let body: String = join(&blocks, "\n");
    text.append(body.as_str());
    text
}

/// What is said when an account was renamed.
pub open spec fn renamed_text(old: Seq<char>, new: Seq<char>) -> Seq<char> {
    "Renamed user "@ + old + " to "@ + new
}

/// Says that the account `old` is now called `new`.
pub fn renamed(old: &str, new: &str) -> (text: String)
    ensures
        text@ == renamed_text(old@, new@),
{
    let mut text: String = "Renamed user ".to_owned();
    text.append(old);
    text.append(" to ");
    text.append(new);
    text
}

/// What is said when an account was removed.
pub open spec fn removed_text(user: UserView) -> Seq<char> {
    "Removed user "@ + user_line(user)
}

/// Says that the account of `user` was removed.
pub fn removed(user: &AuthenticatedUser) -> (text: String)
    ensures
        text@ == removed_text(user@),
{
    let mut text: String = "Removed user ".to_owned();
    let line: String = user.display();
    text.append(line.as_str());
    text
}

/// The link under which a card is shown.
pub open spec fn card_link_text(ean_frontend: Seq<char>, card_number: Seq<char>) -> Seq<char> {
    "[View card\u{1F4B3}]("@ + ean_frontend + card_number + ")"@
}

/// Renders the link to the card of an account.
pub fn card_link(ean_frontend: &str, card_number: &str) -> (text: String)
    ensures
        text@ == card_link_text(ean_frontend@, card_number@),
{
    let mut text: String = "[View card\u{1F4B3}](".to_owned();
    text.append(ean_frontend);
    text.append(card_number);
    text.append(")");
    text
}

/// The names in rows of two, in their order; the last row holds one name
/// where their number is odd.
pub open spec fn rows_of_two(names: Seq<Seq<char>>) -> Seq<Seq<Seq<char>>> {
    Seq::new(
        ((names.len() + 1) / 2) as nat,
        |r: int|
            if 2 * r + 2 <= names.len() {
                seq![names[2 * r], names[2 * r + 1]]
            } else {
                seq![names[2 * r]]
            },
    )
}

/// The rows of a keyboard, each as the names on its buttons.
pub open spec fn rows_view(rows: Seq<Vec<String>>) -> Seq<Seq<Seq<char>>> {
    rows.map_values(|row: Vec<String>| texts_view(row@))
}

/// Lays the names out as the rows of a keyboard, two buttons to a row.
pub fn keyboard_rows(names: Vec<String>) -> (rows: Vec<Vec<String>>)
    ensures
        rows_view(rows@) == rows_of_two(texts_view(names@)),
{
    let ghost all = texts_view(names@);
    let mut rows: Vec<Vec<String>> = Vec::new();
    let mut i: usize = 0;
    while i < names.len()
        invariant
            i <= names.len(),
            i % 2 == 0 || i == names.len(),
            all == texts_view(names@),
            rows@.len() == (i + 1) / 2,
            forall|r: int| 0 <= r < rows@.len() ==> texts_view((#[trigger] rows@[r])@)
                == rows_of_two(all)[r],
        decreases names.len() - i,
    {
        let mut row: Vec<String> = Vec::new();
        row.push(names[i].clone());
        if names.len() - i >= 2 {
            row.push(names[i + 1].clone());
            assert(texts_view(row@) =~= seq![all[i as int], all[i + 1]]);
            rows.push(row);
            i = i + 2;
        } else {
            assert(texts_view(row@) =~= seq![all[i as int]]);
            rows.push(row);
            i = i + 1;
        }
    }
    assert(rows_view(rows@) =~= rows_of_two(all));
    rows
}

} // verus!
