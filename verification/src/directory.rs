//! The authors and articles that the pages show.
//!
//! A [`Directory`] holds the authors under their keys and the articles in
//! the order of their numbers: the first article is number 1. The lookups
//! answer from the directory alone; every one of them either finds what was
//! asked for or says with a [`LookupError`] what is missing.

use vstd::prelude::*;

verus! {

/// An author.
#[derive(Debug)]
pub struct Author {
    pub name: String,
    pub email: String,
}

/// An author, as text.
pub struct AuthorView {
    pub name: Seq<char>,
    pub email: Seq<char>,
}

impl View for Author {
    type V = AuthorView;

    open spec fn view(&self) -> AuthorView {
        AuthorView { name: self.name@, email: self.email@ }
    }
}

impl Clone for Author {
    fn clone(&self) -> (copy: Self)
        ensures
            copy@ == self@,
    {
        Author { name: self.name.clone(), email: self.email.clone() }
    }
}

impl Author {
    /// An author with this name and this address.
    pub fn new(name: &str, email: &str) -> (author: Author)
        ensures
            author@ == (AuthorView { name: name@, email: email@ }),
    {
        Author { name: String::from_str(name), email: String::from_str(email) }
    }
}

/// An article.
#[derive(Debug)]
pub struct Article {
    pub author_name: String,
    pub title: String,
}

/// An article, as text.
pub struct ArticleView {
    /// The key of the article's author.
    pub author_name: Seq<char>,
    pub title: Seq<char>,
}

impl View for Article {
    type V = ArticleView;

    open spec fn view(&self) -> ArticleView {
        ArticleView { author_name: self.author_name@, title: self.title@ }
    }
}

impl Clone for Article {
    fn clone(&self) -> (copy: Self)
        ensures
            copy@ == self@,
    {
        Article { author_name: self.author_name.clone(), title: self.title.clone() }
    }
}

impl Article {
    /// An article of the author under this key, with this title.
    pub fn new(author_name: &str, title: &str) -> (article: Article)
        ensures
            article@ == (ArticleView { author_name: author_name@, title: title@ }),
    {
        Article { author_name: String::from_str(author_name), title: String::from_str(title) }
    }
}

/// The decimal digit for `d`, where `d` is below ten.
pub open spec fn digit(d: nat) -> char {
    if d == 0 {
        '0'
    } else if d == 1 {
        '1'
    } else if d == 2 {
        '2'
    } else if d == 3 {
        '3'
    } else if d == 4 {
        '4'
    } else if d == 5 {
        '5'
    } else if d == 6 {
        '6'
    } else if d == 7 {
        '7'
    } else if d == 8 {
        '8'
    } else {
        '9'
    }
}

/// The decimal numeral of `n`, without leading zeros.
pub open spec fn decimal(n: nat) -> Seq<char>
    decreases n,
{
    if n < 10 {
        seq![digit(n)]
    } else {
        decimal(n / 10).push(digit(n % 10))
    }
}

fn digit_text(d: u32) -> (text: &'static str)
    requires
        d < 10,
    ensures
        text@ == seq![digit(d as nat)],
{
    proof {
        reveal_strlit("0");
        reveal_strlit("1");
        reveal_strlit("2");
        reveal_strlit("3");
        reveal_strlit("4");
        reveal_strlit("5");
        reveal_strlit("6");
        reveal_strlit("7");
        reveal_strlit("8");
        reveal_strlit("9");
    }
    let text = if d == 0 {
        "0"
    } else if d == 1 {
        "1"
    } else if d == 2 {
        "2"
    } else if d == 3 {
        "3"
    } else if d == 4 {
        "4"
    } else if d == 5 {
        "5"
    } else if d == 6 {
        "6"
    } else if d == 7 {
        "7"
    } else if d == 8 {
        "8"
    } else {
        "9"
    };
    assert(text@ =~= seq![digit(d as nat)]);
    text
}

/// Appends the decimal numeral of `n` to `text`.
pub fn push_decimal(text: &mut String, n: u32)
    ensures
        final(text)@ == old(text)@ + decimal(n as nat),
    decreases n,
{
    if n >= 10 {
        push_decimal(text, n / 10);
    }
    text.append(digit_text(n % 10));
    proof {
        if n >= 10 {
            let head = decimal((n / 10) as nat);
            let last = digit((n % 10) as nat);
            assert(old(text)@ + head + seq![last] =~= old(text)@ + head.push(last));
        }
    }
}

/// Why a lookup found nothing.
#[derive(Debug)]
pub enum LookupError {
    /// No author stands under this key.
    NoSuchAuthor(String),
    /// No article has this number.
    NoSuchArticle(u32),
    /// The request named no author or article, or named it unreadably.
    Parameter,
}

/// Why a lookup found nothing, as text.
pub enum LookupErrorView {
    NoSuchAuthor(Seq<char>),
    NoSuchArticle(nat),
    Parameter,
}

impl View for LookupError {
    type V = LookupErrorView;

    open spec fn view(&self) -> LookupErrorView {
        match self {
            LookupError::NoSuchAuthor(name) => LookupErrorView::NoSuchAuthor(name@),
            LookupError::NoSuchArticle(id) => LookupErrorView::NoSuchArticle(*id as nat),
            LookupError::Parameter => LookupErrorView::Parameter,
        }
    }
}

impl LookupErrorView {
    /// The message that stands for the error.
    pub open spec fn message(self) -> Seq<char> {
        match self {
            LookupErrorView::NoSuchAuthor(name) => "no such author: "@ + name,
            LookupErrorView::NoSuchArticle(id) => "no such article: "@ + decimal(id),
            LookupErrorView::Parameter => "parameter error"@,
        }
    }
}

impl LookupError {
    /// The message that stands for the error.
    pub fn message(&self) -> (text: String)
        ensures
            text@ == self@.message(),
    {
        match self {
            LookupError::NoSuchAuthor(name) => {
                let mut text = String::from_str("no such author: ");
                text.append(name.as_str());
                text
            },
            LookupError::NoSuchArticle(id) => {
                let mut text = String::from_str("no such article: ");
                push_decimal(&mut text, *id);
                text
            },
            LookupError::Parameter => String::from_str("parameter error"),
        }
    }
}

/// What a request's parameter has to be to name something: read without
/// error, and present.
pub open spec fn named<T, E>(param: Result<Option<T>, E>) -> Option<T> {
    match param {
        Ok(Some(value)) => Some(value),
        _ => None,
    }
}

/// The value of a request's parameter, or [`LookupError::Parameter`] where
/// the parameter could not be read or is absent.
pub fn required_param<T, E>(param: Result<Option<T>, E>) -> (value: Result<T, LookupError>)
    ensures
        match named(param) {
            Some(inner) => value == Ok::<T, LookupError>(inner),
            None => value matches Err(error) && error@ == LookupErrorView::Parameter,
        },
{
    match param {
        Ok(Some(inner)) => Ok(inner),
        _ => Err(LookupError::Parameter),
    }
}

/// A directory, as text: the authors with their keys, and the articles in
/// the order of their numbers.
pub struct DirectoryView {
    pub authors: Seq<(Seq<char>, AuthorView)>,
    pub articles: Seq<ArticleView>,
}

impl DirectoryView {
    /// The position of the author under `key`, if there is one.
    pub open spec fn position(self, key: Seq<char>) -> Option<int> {
        if exists|i: int| 0 <= i < self.authors.len() && self.authors[i].0 == key {
            Some(choose|i: int| 0 <= i < self.authors.len() && self.authors[i].0 == key)
        } else {
            None
        }
    }

    /// No key stands for two authors.
    pub open spec fn keys_are_unique(self) -> bool {
        forall|i: int, j: int|
            0 <= i < j < self.authors.len() ==> self.authors[i].0 != self.authors[j].0
    }

    /// Whether `id` is the number of an article.
    pub open spec fn has_article(self, id: nat) -> bool {
        1 <= id <= self.articles.len()
    }

    /// The articles with their numbers: the first one is number 1.
    pub open spec fn numbered(self) -> Seq<(nat, ArticleView)> {
        Seq::new(self.articles.len(), |i: int| ((i + 1) as nat, self.articles[i]))
    }

    /// The articles of the author under `key` with their numbers, in the
    /// order of the numbers.
    pub open spec fn numbered_by(self, key: Seq<char>) -> Seq<(nat, ArticleView)> {
        self.numbered().filter(|entry: (nat, ArticleView)| entry.1.author_name == key)
    }
}

/// Authors with their keys, as text.
pub open spec fn author_entries(entries: Seq<(String, Author)>) -> Seq<(Seq<char>, AuthorView)> {
    entries.map_values(|entry: (String, Author)| (entry.0@, entry.1@))
}

/// Articles, as text.
pub open spec fn article_views(articles: Seq<Article>) -> Seq<ArticleView> {
    articles.map_values(|article: Article| article@)
}

/// Articles with their numbers, as text.
pub open spec fn article_entries(entries: Seq<(u32, Article)>) -> Seq<(nat, ArticleView)> {
    entries.map_values(|entry: (u32, Article)| (entry.0 as nat, entry.1@))
}

/// The authors of a site under their keys, and its articles.
///
/// No key stands for two authors, and the articles are few enough for their
/// numbers to fit into `u32`.
pub struct Directory {
    authors: Vec<(String, Author)>,
    articles: Vec<Article>,
}

impl View for Directory {
    type V = DirectoryView;

    closed spec fn view(&self) -> DirectoryView {
        DirectoryView {
            authors: author_entries(self.authors@),
            articles: article_views(self.articles@),
        }
    }
}

impl Directory {
    /// What holds of every directory that this module hands out: no key
    /// stands for two authors, and every article's number fits into `u32`.
    pub open spec fn wf(&self) -> bool {
        &&& self@.keys_are_unique()
        &&& self@.articles.len() < u32::MAX
    }

    /// A directory without authors and articles.
    pub fn new() -> (directory: Directory)
        ensures
            directory.wf(),
            directory@.authors.len() == 0,
            directory@.articles.len() == 0,
    {
        Directory { authors: Vec::new(), articles: Vec::new() }
    }

    fn find(&self, key: &String) -> (found: Option<usize>)
        ensures
            match found {
                Some(index) => index < self@.authors.len() && self@.authors[index as int].0
                    == key@,
                None => self@.position(key@) is None,
            },
    {
        let mut index: usize = 0;
        while index < self.authors.len()
            invariant
                index <= self.authors.len(),
                self@.authors.len() == self.authors.len(),
                forall|i: int| 0 <= i < index ==> self@.authors[i].0 != key@,
            decreases self.authors.len() - index,
        {
            if self.authors[index].0 == *key {
                return Some(index);
            }
            index += 1;
        }
        None
    }

    /// Puts `author` under `key`. Where the key is new, the author joins the
    /// directory behind the others and `true` comes back; where it is taken,
    /// the author replaces the one who stood under it and `false` comes
    /// back.
    pub fn insert_author(&mut self, key: String, author: Author) -> (added: bool)
        requires
            old(self).wf(),
        ensures
            final(self).wf(),
            final(self)@.articles == old(self)@.articles,
            match old(self)@.position(key@) {
                Some(index) => !added && final(self)@.authors == old(self)@.authors.update(
                    index,
                    (key@, author@),
                ),
                None => added && final(self)@.authors == old(self)@.authors.push(
                    (key@, author@),
                ),
            },
    {
        match self.find(&key) {
            Some(index) => {
                let ghost before = self.authors@;
                let ghost chosen = old(self)@.position(key@).unwrap();
                assert(chosen == index);
                self.authors.set(index, (key, author));
                assert(author_entries(self.authors@) =~= author_entries(before).update(
                    index as int,
                    (key@, author@),
                ));
                assert forall|i: int, j: int|
                    0 <= i < j < self@.authors.len() implies self@.authors[i].0
                    != self@.authors[j].0 by {
                    assert(self@.authors[i].0 == old(self)@.authors[i].0);
                    assert(self@.authors[j].0 == old(self)@.authors[j].0);
                }
                false
            },
            None => {
                let ghost before = self.authors@;
                self.authors.push((key, author));
                assert(author_entries(self.authors@) =~= author_entries(before).push(
                    (key@, author@),
                ));
                assert forall|i: int, j: int|
                    0 <= i < j < self@.authors.len() implies self@.authors[i].0
                    != self@.authors[j].0 by {
                    assert(self@.authors[i].0 == old(self)@.authors[i].0);
                    if j < old(self)@.authors.len() {
                        assert(self@.authors[j].0 == old(self)@.authors[j].0);
                    }
                }
                true
            },
        }
    }

    /// Adds `article` behind the others, under the next number. Where no
    /// number is left in `u32`, the article is handed back and the directory
    /// stays as it is.
    pub fn push_article(&mut self, article: Article) -> (rejected: Option<Article>)
        requires
            old(self).wf(),
        ensures
            final(self).wf(),
            final(self)@.authors == old(self)@.authors,
            if old(self)@.articles.len() + 1 < u32::MAX {
                rejected is None && final(self)@.articles == old(self)@.articles.push(article@)
            } else {
                rejected == Some(article) && final(self)@ == old(self)@
            },
    {
        if self.articles.len() + 1 < u32::MAX as usize {
            let ghost before = self.articles@;
            self.articles.push(article);
            assert(article_views(self.articles@) =~= article_views(before).push(article@));
            assert(self@.authors == old(self)@.authors);
            None
        } else {
            Some(article)
        }
    }

    /// All authors with their keys, in the order in which their keys came
    /// into the directory.
    pub fn list_authors(&self) -> (listing: Vec<(String, Author)>)
        ensures
            author_entries(listing@) == self@.authors,
    {
        let mut listing: Vec<(String, Author)> = Vec::new();
        let mut index: usize = 0;
        while index < self.authors.len()
            invariant
                index <= self.authors.len(),
                listing.len() == index,
                forall|i: int|
                    0 <= i < index ==> listing@[i].0@ == self.authors@[i].0@ && listing@[i].1@
                        == self.authors@[i].1@,
            decreases self.authors.len() - index,
        {
            let entry = &self.authors[index];
            listing.push((entry.0.clone(), entry.1.clone()));
            index += 1;
        }
        assert(author_entries(listing@) =~= self@.authors);
        listing
    }

    /// The author under the key `name`, with the key.
    pub fn get_author(&self, name: String) -> (found: Result<(String, Author), LookupError>)
        requires
            self.wf(),
        ensures
            match self@.position(name@) {
                Some(index) => found matches Ok(entry) && (entry.0@, entry.1@)
                    == self@.authors[index],
                None => found matches Err(error) && error@ == LookupErrorView::NoSuchAuthor(
                    name@,
                ),
            },
    {
        match self.find(&name) {
            Some(index) => {
                let entry = &self.authors[index];
                Ok((entry.0.clone(), entry.1.clone()))
            },
            None => Err(LookupError::NoSuchAuthor(name)),
        }
    }

    /// All articles with their numbers, in the order of the numbers.
    pub fn list_articles(&self) -> (listing: Vec<(u32, Article)>)
        requires
            self.wf(),
        ensures
            article_entries(listing@) == self@.numbered(),
    {
        let mut listing: Vec<(u32, Article)> = Vec::new();
        let mut index: usize = 0;
        while index < self.articles.len()
            invariant
                index <= self.articles.len() < u32::MAX,
                listing.len() == index,
                forall|i: int|
                    0 <= i < index ==> listing@[i].0 == i + 1 && listing@[i].1@
                        == self.articles@[i]@,
            decreases self.articles.len() - index,
        {
            listing.push(((index + 1) as u32, self.articles[index].clone()));
            index += 1;
        }
        assert(article_entries(listing@) =~= self@.numbered());
        listing
    }

    /// The articles of the author under the key `name` with their numbers,
    /// in the order of the numbers.
    pub fn list_articles_by_author(&self, name: String) -> (listing: Vec<(u32, Article)>)
        requires
            self.wf(),
        ensures
            article_entries(listing@) == self@.numbered_by(name@),
    {
        let ghost wanted = |entry: (nat, ArticleView)| entry.1.author_name == name@;
        let mut listing: Vec<(u32, Article)> = Vec::new();
        let mut index: usize = 0;
        proof {
            assert(self@.numbered().take(0) =~= Seq::empty());
            reveal(Seq::filter);
            assert(article_entries(listing@) =~= Seq::empty());
        }
        while index < self.articles.len()
            invariant
                index <= self.articles.len() < u32::MAX,
                wanted == |entry: (nat, ArticleView)| entry.1.author_name == name@,
                article_entries(listing@) == self@.numbered().take(index as int).filter(wanted),
            decreases self.articles.len() - index,
        {
            let article = &self.articles[index];
            let ghost before = listing@;
            let ghost seen = self@.numbered().take(index as int);
            proof {
                let entry = ((index + 1) as nat, article@);
                assert(self@.numbered().take(index + 1) =~= seen.push(entry));
                seen.lemma_filter_push(entry, wanted);
            }
            if article.author_name == name {
                listing.push(((index + 1) as u32, article.clone()));
                assert(article_entries(listing@) =~= article_entries(before).push(
                    ((index + 1) as nat, article@),
                ));
            }
            index += 1;
        }
        assert(self@.numbered().take(index as int) =~= self@.numbered());
        listing
    }

    /// The article with the number `id`.
    pub fn get_article(&self, id: u32) -> (found: Result<Article, LookupError>)
        ensures
            match found {
                Ok(article) => self@.has_article(id as nat) && article@ == self@.articles[id
                    - 1],
                Err(error) => !self@.has_article(id as nat) && error@
                    == LookupErrorView::NoSuchArticle(id as nat),
            },
    {
        if id >= 1 && ((id - 1) as usize) < self.articles.len() {
            Ok(self.articles[(id - 1) as usize].clone())
        } else {
            Err(LookupError::NoSuchArticle(id))
        }
    }
}

} // verus!
