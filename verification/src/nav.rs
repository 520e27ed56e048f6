//! The navigation that a page offers beside its content.
//!
//! A listing of authors or of articles is turned into the entries of the
//! navigation portlet: one link for each author or article, in the order of
//! the listing.

use vstd::prelude::*;
use vstd::std_specs::cmp::PartialEqSpecImpl;
use vstd::std_specs::convert::FromSpecImpl;
use crate::directory::{
    article_entries,
    author_entries,
    decimal,
    push_decimal,
    Article,
    ArticleView,
    Author,
    AuthorView,
};

verus! {

/// One link of the navigation.
#[derive(Debug)]
pub struct NavItem {
    /// Where the link leads.
    pub href: String,
    /// What the link shows.
    pub text: String,
}

/// One link of the navigation, as text.
pub struct NavItemView {
    pub href: Seq<char>,
    pub text: Seq<char>,
}

impl View for NavItem {
    type V = NavItemView;

    open spec fn view(&self) -> NavItemView {
        NavItemView { href: self.href@, text: self.text@ }
    }
}

impl Clone for NavItem {
    fn clone(&self) -> (copy: Self)
        ensures
            copy@ == self@,
    {
        NavItem { href: self.href.clone(), text: self.text.clone() }
    }
}

impl PartialEq for NavItem {
    fn eq(&self, other: &Self) -> (equal: bool) {
        self.href == other.href && self.text == other.text
    }
}

impl PartialEqSpecImpl for NavItem {
    open spec fn obeys_eq_spec() -> bool {
        true
    }

    open spec fn eq_spec(&self, other: &Self) -> bool {
        self@ == other@
    }
}

/// The links of the navigation, or `None` while the page offers none.
#[derive(Debug)]
pub struct NavCtx(pub Option<Vec<NavItem>>);

/// Links, as text.
pub open spec fn link_views(items: Seq<NavItem>) -> Seq<NavItemView> {
    Seq::new(items.len(), |i: int| items[i]@)
}

impl View for NavCtx {
    type V = Option<Seq<NavItemView>>;

    open spec fn view(&self) -> Option<Seq<NavItemView>> {
        match self.0 {
            Some(items) => Some(link_views(items@)),
            None => None,
        }
    }
}

fn clone_links(items: &Vec<NavItem>) -> (copy: Vec<NavItem>)
    ensures
        link_views(copy@) == link_views(items@),
{
    let mut copy: Vec<NavItem> = Vec::new();
    let mut index: usize = 0;
    while index < items.len()
        invariant
            index <= items.len(),
            copy.len() == index,
            forall|i: int| 0 <= i < index ==> copy@[i]@ == items@[i]@,
        decreases items.len() - index,
    {
        copy.push(items[index].clone());
        index += 1;
    }
    assert(link_views(copy@) =~= link_views(items@));
    copy
}

fn same_links(left: &Vec<NavItem>, right: &Vec<NavItem>) -> (equal: bool)
    ensures
        equal == (link_views(left@) == link_views(right@)),
{
    if left.len() != right.len() {
        assert(link_views(left@).len() != link_views(right@).len());
        return false;
    }
    let mut index: usize = 0;
    while index < left.len()
        invariant
            index <= left.len(),
            left.len() == right.len(),
            forall|i: int| 0 <= i < index ==> left@[i]@ == right@[i]@,
        decreases left.len() - index,
    {
        if !(left[index] == right[index]) {
            assert(link_views(left@)[index as int] != link_views(right@)[index as int]);
            return false;
        }
        index += 1;
    }
    assert(link_views(left@) =~= link_views(right@));
    true
}

impl Clone for NavCtx {
    fn clone(&self) -> (copy: Self)
        ensures
            copy@ == self@,
    {
        match &self.0 {
            Some(items) => NavCtx(Some(clone_links(items))),
            None => NavCtx(None),
        }
    }
}

impl PartialEq for NavCtx {
    fn eq(&self, other: &Self) -> (equal: bool) {
        match (&self.0, &other.0) {
            (Some(left), Some(right)) => same_links(left, right),
            (None, None) => true,
            _ => false,
        }
    }
}

impl PartialEqSpecImpl for NavCtx {
    open spec fn obeys_eq_spec() -> bool {
        true
    }

    open spec fn eq_spec(&self, other: &Self) -> bool {
        self@ == other@
    }
}

impl From<Vec<NavItem>> for NavCtx {
    fn from(item: Vec<NavItem>) -> (nav: Self) {
        NavCtx(Some(item))
    }
}

impl FromSpecImpl<Vec<NavItem>> for NavCtx {
    open spec fn obeys_from_spec() -> bool {
        true
    }

    open spec fn from_spec(item: Vec<NavItem>) -> Self {
        NavCtx(Some(item))
    }
}

/// The link to the page of the author under `key`.
pub open spec fn author_link(key: Seq<char>, author: AuthorView) -> NavItemView {
    NavItemView { href: "/author/"@ + key + "/"@, text: author.name }
}

/// The link to the page of the article with the number `id`.
pub open spec fn article_link(id: nat, article: ArticleView) -> NavItemView {
    NavItemView { href: "/article/"@ + decimal(id) + "/"@, text: article.title }
}

/// The links to the pages of `authors`, one for each, in their order.
pub open spec fn author_links(authors: Seq<(Seq<char>, AuthorView)>) -> Seq<NavItemView> {
    Seq::new(authors.len(), |i: int| author_link(authors[i].0, authors[i].1))
}

/// The links to the pages of `articles`, one for each, in their order.
pub open spec fn article_links(articles: Seq<(nat, ArticleView)>) -> Seq<NavItemView> {
    Seq::new(articles.len(), |i: int| article_link(articles[i].0, articles[i].1))
}

/// The navigation for a listing of authors: each author's name, linked to
/// the author's page.
pub fn author_nav(authors: &Vec<(String, Author)>) -> (nav: NavCtx)
    ensures
        nav@ == Some(author_links(author_entries(authors@))),
{
    let mut items: Vec<NavItem> = Vec::new();
    let mut index: usize = 0;
    while index < authors.len()
        invariant
            index <= authors.len(),
            items.len() == index,
            forall|i: int|
                0 <= i < index ==> items@[i]@ == author_link(authors@[i].0@, authors@[i].1@),
        decreases authors.len() - index,
    {
        let entry = &authors[index];
        let mut href = String::from_str("/author/");
        href.append(entry.0.as_str());
        href.append("/");
        items.push(NavItem { href, text: entry.1.name.clone() });
        index += 1;
    }
    assert(link_views(items@) =~= author_links(author_entries(authors@)));
    NavCtx(Some(items))
}

/// The navigation for a listing of articles: each article's title, linked
/// to the article's page.
pub fn article_nav(articles: &Vec<(u32, Article)>) -> (nav: NavCtx)
    ensures
        nav@ == Some(article_links(article_entries(articles@))),
{
    let mut items: Vec<NavItem> = Vec::new();
    let mut index: usize = 0;
    while index < articles.len()
        invariant
            index <= articles.len(),
            items.len() == index,
            forall|i: int|
                0 <= i < index ==> items@[i]@ == article_link(
                    articles@[i].0 as nat,
                    articles@[i].1@,
                ),
        decreases articles.len() - index,
    {
        let entry = &articles[index];
        let mut href = String::from_str("/article/");
        push_decimal(&mut href, entry.0);
        href.append("/");
        items.push(NavItem { href, text: entry.1.title.clone() });
        index += 1;
    }
    assert(link_views(items@) =~= article_links(article_entries(articles@)));
    NavCtx(Some(items))
}

} // verus!
