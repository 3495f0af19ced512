use janus::views::repo::{repos_page, PageParts, Repo, RepoCard, RepoFormView};

fn parts() -> PageParts {
    PageParts {
        intro: "<header>Repositories</header>".to_string(),
        csrf_input: "<input type=\"hidden\">".to_string(),
        form_error: String::new(),
        active_badge: "<b>active</b>".to_string(),
    }
}

fn form(name: &str, default_branch: &str) -> RepoFormView {
    RepoFormView {
        name: name.to_string(),
        default_branch: default_branch.to_string(),
    }
}

fn card(id: &str, name: &str) -> RepoCard {
    RepoCard {
        repo: Repo {
            id: id.to_string(),
            name: name.to_string(),
            default_branch: "main".to_string(),
        },
        clone_url: format!("https://git.example/{id}.git"),
    }
}

const EMPTY_PAGE: &str = "<header>Repositories</header><section class=\"card\"><div class=\"section-head\"><div><div class=\"eyebrow\">Source Control</div><h2>Create repository</h2></div></div><form method=\"post\" action=\"/repos\" class=\"stack-lg\"><input type=\"hidden\"><div class=\"form-grid form-grid-2\"><label><span>Name</span><input name=\"name\" value=\"\" maxlength=\"80\" required data-validate data-trim-required=\"true\"></label><label><span>Default branch</span><input name=\"default_branch\" value=\"main\" maxlength=\"255\" required data-validate data-trim-required=\"true\" data-no-whitespace=\"true\"></label></div><div class=\"actions\"><button type=\"submit\">Create repository</button></div></form></section><section class=\"card\"><div class=\"section-head\"><div><div class=\"eyebrow\">Inventory</div><h2>Available repositories</h2></div></div><div class=\"card-grid\"></div></section>";

const CARD: &str = "<article class=\"entity-card\"><div class=\"entity-head\"><div><h3>tools</h3><p class=\"muted\">Default branch: <code>main</code></p></div><b>active</b></div><div class=\"meta-pair\"><span>Clone URL</span><code>https://git.example/r1.git</code></div><form method=\"post\" action=\"/repos/r1/trigger\" class=\"stack-md inset-panel\"><input type=\"hidden\"><div class=\"inline-fields\"><label><span>Branch ref</span><input name=\"branch\" value=\"refs/heads/main\" data-validate data-no-whitespace=\"true\"></label><label><span>Commit</span><input name=\"commit\" value=\"HEAD\" data-validate data-no-whitespace=\"true\"></label></div><div class=\"actions\"><button type=\"submit\">Trigger pipeline</button></div></form></article>";

#[test]
fn the_page_shows_the_form_and_no_cards() {
    assert_eq!(repos_page(&vec![], &parts(), &form("", "main")), EMPTY_PAGE);
}

#[test]
fn the_page_shows_one_card_for_each_repository() {
    let page = repos_page(&vec![card("r1", "tools")], &parts(), &form("", "main"));
    assert!(page.contains(CARD));
    assert_eq!(page.len(), EMPTY_PAGE.len() + CARD.len());
    let longer = repos_page(
        &vec![card("r1", "tools"), card("r2", "site")],
        &parts(),
        &form("", "main"),
    );
    assert!(longer.find("tools").expect("tools") < longer.find("site").expect("site"));
}

#[test]
fn texts_cannot_break_out_of_the_page() {
    let page = repos_page(
        &vec![card("r1", "<script>alert(\"x\")</script> & more")],
        &parts(),
        &form("\"><b>", "main"),
    );
    assert!(page.contains("&lt;script&gt;alert(&quot;x&quot;)&lt;/script&gt; &amp; more"));
    assert!(page.contains("value=\"&quot;&gt;&lt;b&gt;\""));
    assert!(!page.contains("<script>"));
    assert!(repos_page(&vec![card("r1", "it's")], &parts(), &form("", "main")).contains("it's"));
}
