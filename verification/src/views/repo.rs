//! The page that lists repositories and registers new ones.
use vstd::prelude::*;

use crate::views::markup;

verus! {

/// A registered repository.
#[derive(Debug)]
pub struct Repo {
    pub id: String,
    pub name: String,
    pub default_branch: String,
}

/// A repository with the URL that it is cloned from.
#[derive(Debug)]
pub struct RepoCard {
    pub repo: Repo,
    pub clone_url: String,
}

/// What the form for a new repository is filled with.
#[derive(Debug)]
pub struct RepoFormView {
    pub name: String,
    pub default_branch: String,
}

/// The parts of the page that all pages share, as HTML.
#[derive(Debug)]
pub struct PageParts {
    pub intro: String,
    pub csrf_input: String,
    pub form_error: String,
    pub active_badge: String,
}

/// The opening of the form for a new repository.
pub const CREATE_HEAD: &'static str =
    "<section class=\"card\"><div class=\"section-head\"><div><div class=\"eyebrow\">Source Control</div><h2>Create repository</h2></div></div><form method=\"post\" action=\"/repos\" class=\"stack-lg\">";

pub const NAME_FIELD: &'static str =
    "<div class=\"form-grid form-grid-2\"><label><span>Name</span><input name=\"name\" value=\"";

pub const BRANCH_FIELD: &'static str =
    "\" maxlength=\"80\" required data-validate data-trim-required=\"true\"></label><label><span>Default branch</span><input name=\"default_branch\" value=\"";

pub const CREATE_TAIL: &'static str =
    "\" maxlength=\"255\" required data-validate data-trim-required=\"true\" data-no-whitespace=\"true\"></label></div><div class=\"actions\"><button type=\"submit\">Create repository</button></div></form></section>";

pub const LIST_HEAD: &'static str =
    "<section class=\"card\"><div class=\"section-head\"><div><div class=\"eyebrow\">Inventory</div><h2>Available repositories</h2></div></div><div class=\"card-grid\">";

pub const LIST_TAIL: &'static str = "</div></section>";

pub const CARD_HEAD: &'static str =
    "<article class=\"entity-card\"><div class=\"entity-head\"><div><h3>";

pub const CARD_BRANCH: &'static str = "</h3><p class=\"muted\">Default branch: <code>";

pub const CARD_BADGE: &'static str = "</code></p></div>";

pub const CARD_CLONE: &'static str = "</div><div class=\"meta-pair\"><span>Clone URL</span><code>";

pub const CARD_FORM: &'static str = "</code></div><form method=\"post\" action=\"";

pub const CARD_FORM_CLASS: &'static str = "\" class=\"stack-md inset-panel\">";

pub const CARD_BRANCH_FIELD: &'static str =
    "<div class=\"inline-fields\"><label><span>Branch ref</span><input name=\"branch\" value=\"";

pub const CARD_TAIL: &'static str =
    "\" data-validate data-no-whitespace=\"true\"></label><label><span>Commit</span><input name=\"commit\" value=\"HEAD\" data-validate data-no-whitespace=\"true\"></label></div><div class=\"actions\"><button type=\"submit\">Trigger pipeline</button></div></form></article>";

/// Where a repository's pipeline is triggered.
pub open spec fn trigger_path(id: Seq<char>) -> Seq<char> {
    "/repos/"@ + id + "/trigger"@
}

/// The full name of a branch.
pub open spec fn branch_ref(branch: Seq<char>) -> Seq<char> {
    "refs/heads/"@ + branch
}

/// The form that registers a repository.
pub open spec fn create_form(parts: PageParts, form: RepoFormView) -> Seq<char> {
    CREATE_HEAD@ + parts.csrf_input@ + parts.form_error@ + NAME_FIELD@ + markup::escaped(form.name@)
        + BRANCH_FIELD@ + markup::escaped(form.default_branch@) + CREATE_TAIL@
}

/// The card of a repository.
pub open spec fn card(parts: PageParts, card: RepoCard) -> Seq<char> {
    CARD_HEAD@ + markup::escaped(card.repo.name@) + CARD_BRANCH@ + markup::escaped(
        card.repo.default_branch@,
    ) + CARD_BADGE@ + parts.active_badge@ + CARD_CLONE@ + markup::escaped(card.clone_url@)
        + CARD_FORM@ + markup::escaped(trigger_path(card.repo.id@)) + CARD_FORM_CLASS@
        + parts.csrf_input@ + CARD_BRANCH_FIELD@ + markup::escaped(
        branch_ref(card.repo.default_branch@),
    ) + CARD_TAIL@
}

/// The cards of some repositories, in order.
pub open spec fn cards(parts: PageParts, repos: Seq<RepoCard>) -> Seq<char>
    decreases repos.len(),
{
    if repos.len() == 0 {
        Seq::empty()
    } else {
        cards(parts, repos.drop_last()) + card(parts, repos.last())
    }
}

/// The body of the page: the introduction, the form for a new repository, and
/// a card for each repository there is.
pub open spec fn page(parts: PageParts, form: RepoFormView, repos: Seq<RepoCard>) -> Seq<char> {
    parts.intro@ + create_form(parts, form) + LIST_HEAD@ + cards(parts, repos) + LIST_TAIL@
}

fn write_create_form(parts: &PageParts, form: &RepoFormView) -> (r: String)
    ensures
        r@ == create_form(*parts, *form),
{
    let mut out = CREATE_HEAD.to_owned();
    out.append(parts.csrf_input.as_str());
    out.append(parts.form_error.as_str());
    out.append(NAME_FIELD);
    out.append(markup::escape(form.name.as_str()).as_str());
    out.append(BRANCH_FIELD);
    out.append(markup::escape(form.default_branch.as_str()).as_str());
    out.append(CREATE_TAIL);
    out
}

fn write_card(parts: &PageParts, shown: &RepoCard) -> (r: String)
    ensures
        r@ == card(*parts, *shown),
{
    let mut action = "/repos/".to_owned();
    action.append(shown.repo.id.as_str());
    action.append("/trigger");
    let mut branch = "refs/heads/".to_owned();
    branch.append(shown.repo.default_branch.as_str());
    let mut out = CARD_HEAD.to_owned();
    out.append(markup::escape(shown.repo.name.as_str()).as_str());
    out.append(CARD_BRANCH);
    out.append(markup::escape(shown.repo.default_branch.as_str()).as_str());
    out.append(CARD_BADGE);
    out.append(parts.active_badge.as_str());
    out.append(CARD_CLONE);
    out.append(markup::escape(shown.clone_url.as_str()).as_str());
    out.append(CARD_FORM);
    out.append(markup::escape(action.as_str()).as_str());
    out.append(CARD_FORM_CLASS);
    out.append(parts.csrf_input.as_str());
    out.append(CARD_BRANCH_FIELD);
    out.append(markup::escape(branch.as_str()).as_str());
    out.append(CARD_TAIL);
    out
}

/// Writes the body of the page.
pub fn repos_page(repos: &Vec<RepoCard>, parts: &PageParts, form: &RepoFormView) -> (r: String)
    ensures
        r@ == page(*parts, *form, repos@),
{
    let mut list = String::new();
    assert(repos@.take(0) =~= Seq::empty());
    let mut i: usize = 0;
    while i < repos.len()
        invariant
            i <= repos@.len(),
            list@ == cards(*parts, repos@.take(i as int)),
        decreases repos@.len() - i,
    {
        assert(repos@.take(i + 1).drop_last() =~= repos@.take(i as int));
        list.append(write_card(parts, &repos[i]).as_str());
        i += 1;
    }
    assert(repos@.take(i as int) =~= repos@);
    let mut out = parts.intro.clone();
    out.append(write_create_form(parts, form).as_str());
    out.append(LIST_HEAD);
    out.append(list.as_str());
    out.append(LIST_TAIL);
    out
}

/// The page of a longer list shows one more card after the others.
pub proof fn one_more_card(parts: PageParts, repos: Seq<RepoCard>, added: RepoCard)
    ensures
        cards(parts, repos.push(added)) == cards(parts, repos) + card(parts, added),
{
    assert(repos.push(added).drop_last() =~= repos);
}

} // verus!
