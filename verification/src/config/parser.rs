//! The parser of the options string.
//!
//! Options are keywords separated by commas; white space around a keyword is
//! ignored, and so is an empty piece. The keyword `sample` anywhere in the
//! string sets the whole selection and makes every other piece irrelevant.
//! Otherwise the keywords are applied from left to right, and the first one
//! that is not known is reported.

use crate::config::types::{ConfigView, FrontendType, PersistenceType, ProjectConfig, ProjectType};
use crate::error::{BootsError, ErrorView};
use crate::text::{
    chars_eq, from_chars, opt_view, split, split_on, to_chars, trim_bounds, trimmed, views,
};
use vstd::prelude::*;

verus! {

/// The choices that an options string makes.
#[derive(Debug, Clone, Copy)]
pub struct Selection {
    pub persistence: Option<PersistenceType>,
    pub frontend: Option<FrontendType>,
    pub has_grpc: bool,
    pub has_http: bool,
    pub has_client: bool,
}

/// The selection of a project without options: no persistence, no frontend,
/// HTTP alone.
pub open spec fn default_selection() -> Selection {
    Selection {
        persistence: None,
        frontend: None,
        has_grpc: false,
        has_http: true,
        has_client: false,
    }
}

/// The selection of the sample project: Postgres and a single-page frontend.
pub open spec fn sample_selection() -> Selection {
    Selection {
        persistence: Some(PersistenceType::Postgres),
        frontend: Some(FrontendType::Spa),
        has_grpc: false,
        has_http: true,
        has_client: false,
    }
}

/// What one keyword does to a selection; `None` where the keyword is not
/// known. A kind of persistence or of frontend replaces the one chosen before;
/// `persistence` chooses files only where nothing was chosen; the empty
/// keyword changes nothing.
pub open spec fn apply_token(sel: Selection, tok: Seq<char>) -> Option<Selection> {
    if tok == "postgres"@ {
        Some(Selection { persistence: Some(PersistenceType::Postgres), ..sel })
    } else if tok == "sqlite"@ {
        Some(Selection { persistence: Some(PersistenceType::Sqlite), ..sel })
    } else if tok == "file"@ {
        Some(Selection { persistence: Some(PersistenceType::File), ..sel })
    } else if tok == "grpc"@ {
        Some(Selection { has_grpc: true, ..sel })
    } else if tok == "http"@ {
        Some(Selection { has_http: true, ..sel })
    } else if tok == "client"@ {
        Some(Selection { has_client: true, ..sel })
    } else if tok == "persistence"@ {
        if sel.persistence is None {
            Some(Selection { persistence: Some(PersistenceType::File), ..sel })
        } else {
            Some(sel)
        }
    } else if tok == "fe:spa"@ || tok == "fe-spa"@ || tok == "spa"@ {
        Some(Selection { frontend: Some(FrontendType::Spa), ..sel })
    } else if tok == "fe:ssr"@ || tok == "fe-ssr"@ || tok == "ssr"@ {
        Some(Selection { frontend: Some(FrontendType::Ssr), ..sel })
    } else if tok.len() == 0 {
        Some(sel)
    } else {
        None
    }
}

/// What a list of keywords does to a selection, applied from left to right;
/// the first unknown keyword where there is one.
pub open spec fn apply_tokens(sel: Selection, toks: Seq<Seq<char>>) -> Result<
    Selection,
    Seq<char>,
>
    decreases toks.len(),
{
    if toks.len() == 0 {
        Ok(sel)
    } else {
        match apply_token(sel, toks[0]) {
            Some(next) => apply_tokens(next, toks.skip(1)),
            None => Err(toks[0]),
        }
    }
}

/// The keywords of an options string: its pieces between commas, each without
/// the white space around it.
pub open spec fn tokens_of(options: Seq<char>) -> Seq<Seq<char>> {
    split_on(options, ',').map_values(|piece: Seq<char>| trimmed(piece))
}

/// The selection that an options string makes, or its first unknown keyword.
pub open spec fn selection_of(options: Option<Seq<char>>) -> Result<Selection, Seq<char>> {
    match options {
        None => Ok(default_selection()),
        Some(text) => {
            if tokens_of(text).contains("sample"@) {
                Ok(sample_selection())
            } else {
                apply_tokens(default_selection(), tokens_of(text))
            }
        },
    }
}

/// The configuration of a project of the given type and name with the given
/// selection and author.
pub open spec fn config_of(
    project_type: ProjectType,
    name: Seq<char>,
    sel: Selection,
    author_name: Seq<char>,
    author_email: Seq<char>,
) -> ConfigView {
    ConfigView {
        name,
        project_type,
        persistence: sel.persistence,
        frontend: sel.frontend,
        has_grpc: sel.has_grpc,
        has_http: sel.has_http,
        has_client: sel.has_client,
        author_name,
        author_email,
    }
}

/// What parsing gives: the configuration, or the error that names the first
/// unknown keyword.
pub open spec fn parse_spec(
    project_type: ProjectType,
    name: Seq<char>,
    options: Option<Seq<char>>,
    author_name: Seq<char>,
    author_email: Seq<char>,
) -> Result<ConfigView, ErrorView> {
    match selection_of(options) {
        Ok(sel) => Ok(config_of(project_type, name, sel, author_name, author_email)),
        Err(tok) => Err(ErrorView::InvalidOption(tok)),
    }
}

/// Whether `tok` is a keyword that is known. This does not depend on what was
/// selected before.
pub open spec fn is_known(tok: Seq<char>) -> bool {
    apply_token(default_selection(), tok) is Some
}

/// Applying one more keyword at the end is applying it to what the keywords
/// before it gave.
pub proof fn lemma_apply_last(sel: Selection, toks: Seq<Seq<char>>, tok: Seq<char>)
    ensures
        apply_tokens(sel, toks.push(tok)) == (match apply_tokens(sel, toks) {
            Ok(before) => match apply_token(before, tok) {
                Some(after) => Ok::<Selection, Seq<char>>(after),
                None => Err(tok),
            },
            Err(unknown) => Err(unknown),
        }),
    decreases toks.len(),
{
    let all = toks.push(tok);
    if toks.len() == 0 {
        assert(all[0] == tok);
        assert(all.skip(1) =~= Seq::<Seq<char>>::empty());
        match apply_token(sel, tok) {
            Some(after) => {
                assert(apply_tokens(after, all.skip(1)) == Ok::<Selection, Seq<char>>(after));
            },
            None => {},
        }
    } else {
        assert(all[0] == toks[0]);
        assert(all.skip(1) =~= toks.skip(1).push(tok));
        match apply_token(sel, toks[0]) {
            Some(next) => {
                lemma_apply_last(next, toks.skip(1), tok);
            },
            None => {},
        }
    }
}

/// The kind of persistence that a keyword names.
pub open spec fn persistence_named(tok: Seq<char>) -> Option<PersistenceType> {
    if tok == "postgres"@ {
        Some(PersistenceType::Postgres)
    } else if tok == "sqlite"@ {
        Some(PersistenceType::Sqlite)
    } else if tok == "file"@ {
        Some(PersistenceType::File)
    } else {
        None
    }
}

/// The last word counts: where the last keyword names a kind of persistence,
/// that kind is selected, whatever was selected before, and nothing else
/// changes.
pub proof fn lemma_last_persistence_wins(sel: Selection, toks: Seq<Seq<char>>, tok: Seq<char>)
    requires
        apply_tokens(sel, toks) is Ok,
        persistence_named(tok) is Some,
    ensures
        apply_tokens(sel, toks.push(tok)) == Ok::<Selection, Seq<char>>(
            Selection { persistence: persistence_named(tok), ..apply_tokens(sel, toks)->Ok_0 },
        ),
{
    lemma_apply_last(sel, toks, tok);
    reveal_strlit("postgres");
    reveal_strlit("sqlite");
    reveal_strlit("file");
}

/// The keyword `persistence` fills an empty slot only: where a kind of
/// persistence was selected before, it stays, and files are selected where
/// none was.
pub proof fn lemma_persistence_fills_empty(sel: Selection, toks: Seq<Seq<char>>)
    requires
        apply_tokens(sel, toks) is Ok,
    ensures
        apply_tokens(sel, toks.push("persistence"@)) == Ok::<Selection, Seq<char>>(
            Selection {
                persistence: if apply_tokens(sel, toks)->Ok_0.persistence is Some {
                    apply_tokens(sel, toks)->Ok_0.persistence
                } else {
                    Some(PersistenceType::File)
                },
                ..apply_tokens(sel, toks)->Ok_0
            },
        ),
{
    lemma_apply_last(sel, toks, "persistence"@);
    reveal_strlit("persistence");
    reveal_strlit("postgres");
    reveal_strlit("sqlite");
    reveal_strlit("file");
    reveal_strlit("grpc");
    reveal_strlit("http");
    reveal_strlit("client");
    assert("persistence"@.len() == 11);
}

/// Keywords that are not known are rejected: where some keyword of `toks` is
/// not known, applying `toks` fails, whatever was selected before, and the
/// keyword that is reported is the first one of `toks` that is not known.
pub proof fn lemma_unknown_rejected(sel: Selection, toks: Seq<Seq<char>>, i: int)
    requires
        0 <= i < toks.len(),
        !is_known(toks[i]),
    ensures
        apply_tokens(sel, toks) is Err,
        exists|j: int|
            0 <= j <= i && apply_tokens(sel, toks)->Err_0 == #[trigger] toks[j] && !is_known(
                toks[j],
            ) && forall|k: int| 0 <= k < j ==> is_known(#[trigger] toks[k]),
    decreases toks.len(),
{
    if is_known(toks[0]) {
        let next = apply_token(sel, toks[0])->0;
        assert(toks.skip(1)[i - 1] == toks[i]);
        lemma_unknown_rejected(next, toks.skip(1), i - 1);
        let rest = toks.skip(1);
        let j = choose|j: int|
            0 <= j <= i - 1 && apply_tokens(next, rest)->Err_0 == #[trigger] rest[j] && !is_known(
                rest[j],
            ) && forall|k: int| 0 <= k < j ==> is_known(#[trigger] rest[k]);
        assert(rest[j] == toks[j + 1]);
        assert forall|k: int| 0 <= k < j + 1 implies is_known(#[trigger] toks[k]) by {
            if k > 0 {
                assert(rest[k - 1] == toks[k]);
            }
        }
        assert(apply_tokens(sel, toks)->Err_0 == toks[j + 1]);
    } else {
        assert(apply_tokens(sel, toks)->Err_0 == toks[0]);
    }
}

/// An options string with an unknown keyword, and without the keyword
/// `sample`, is rejected with an error that names an unknown keyword of the
/// string; a string with the keyword `sample` selects the sample, whatever
/// else it holds.
pub proof fn lemma_parse_rejects_unknown(
    project_type: ProjectType,
    name: Seq<char>,
    options: Seq<char>,
    author_name: Seq<char>,
    author_email: Seq<char>,
    i: int,
)
    requires
        0 <= i < tokens_of(options).len(),
        !is_known(tokens_of(options)[i]),
    ensures
        !tokens_of(options).contains("sample"@) ==> (match parse_spec(
            project_type,
            name,
            Some(options),
            author_name,
            author_email,
        ) {
            Err(ErrorView::InvalidOption(tok)) => tokens_of(options).contains(tok) && !is_known(
                tok,
            ),
            _ => false,
        }),
        tokens_of(options).contains("sample"@) ==> parse_spec(
            project_type,
            name,
            Some(options),
            author_name,
            author_email,
        ) == Ok::<ConfigView, ErrorView>(
            config_of(project_type, name, sample_selection(), author_name, author_email),
        ),
{
    lemma_unknown_rejected(default_selection(), tokens_of(options), i);
}

/// The outcome of parsing with its strings as sequences of characters.
pub open spec fn outcome_view(r: Result<ProjectConfig, BootsError>) -> Result<
    ConfigView,
    ErrorView,
> {
    match r {
        Ok(c) => Ok(c@),
        Err(e) => Err(e@),
    }
}

/// Whether `tok` is the keyword `word`.
fn is_word(tok: &Vec<char>, word: &str) -> (r: bool)
    ensures
        r == (tok@ == word@),
{
    let w = to_chars(word);
    chars_eq(tok, &w)
}

/// Applies one keyword to a selection.
pub fn apply_option(sel: Selection, tok: &Vec<char>) -> (r: Option<Selection>)
    ensures
        r == apply_token(sel, tok@),
{
    if is_word(tok, "postgres") {
        Some(Selection { persistence: Some(PersistenceType::Postgres), ..sel })
    } else if is_word(tok, "sqlite") {
        Some(Selection { persistence: Some(PersistenceType::Sqlite), ..sel })
    } else if is_word(tok, "file") {
        Some(Selection { persistence: Some(PersistenceType::File), ..sel })
    } else if is_word(tok, "grpc") {
        Some(Selection { has_grpc: true, ..sel })
    } else if is_word(tok, "http") {
        Some(Selection { has_http: true, ..sel })
    } else if is_word(tok, "client") {
        Some(Selection { has_client: true, ..sel })
    } else if is_word(tok, "persistence") {
        if sel.persistence.is_none() {
            Some(Selection { persistence: Some(PersistenceType::File), ..sel })
        } else {
            Some(sel)
        }
    } else if is_word(tok, "fe:spa") || is_word(tok, "fe-spa") || is_word(tok, "spa") {
        Some(Selection { frontend: Some(FrontendType::Spa), ..sel })
    } else if is_word(tok, "fe:ssr") || is_word(tok, "fe-ssr") || is_word(tok, "ssr") {
        Some(Selection { frontend: Some(FrontendType::Ssr), ..sel })
    } else if tok.len() == 0 {
        Some(sel)
    } else {
        None
    }
}

/// The keywords of an options string.
pub fn tokens(options: &str) -> (r: Vec<Vec<char>>)
    ensures
        views(r@) == tokens_of(options@),
{
    let text = to_chars(options);
    let pieces = split(&text, ',');
    let mut toks: Vec<Vec<char>> = Vec::new();
    let mut i: usize = 0;
    while i < pieces.len()
        invariant
            i <= pieces.len(),
            toks.len() == i,
            forall|j: int| 0 <= j < i ==> (#[trigger] toks[j])@ == trimmed(pieces[j]@),
        decreases pieces.len() - i,
    {
        let piece = &pieces[i];
        let (a, b) = trim_bounds(piece, 0, piece.len());
        assert(piece@.subrange(0, piece.len() as int) == piece@);
        let mut tok: Vec<char> = Vec::new();
        let mut k: usize = a;
        while k < b
            invariant
                a <= k <= b <= piece.len(),
                tok@ == piece@.subrange(a as int, k as int),
            decreases b - k,
        {
            tok.push(piece[k]);
            k = k + 1;
        }
        toks.push(tok);
        i = i + 1;
    }
    assert(views(toks@) =~= tokens_of(options@)) by {
        assert(views(pieces@) == split_on(options@, ','));
        assert forall|j: int| 0 <= j < toks.len() implies views(toks@)[j] == tokens_of(
            options@,
        )[j] by {
            assert(views(pieces@)[j] == pieces[j]@);
        }
    }
    toks
}

/// Whether `word` is among `toks`.
fn has_word(toks: &Vec<Vec<char>>, word: &str) -> (r: bool)
    ensures
        r == views(toks@).contains(word@),
{
    let w = to_chars(word);
    let mut i: usize = 0;
    while i < toks.len()
        invariant
            i <= toks.len(),
            w@ == word@,
            forall|j: int| 0 <= j < i ==> views(toks@)[j] != word@,
        decreases toks.len() - i,
    {
        if chars_eq(&toks[i], &w) {
            assert(views(toks@)[i as int] == word@);
            return true;
        }
        i = i + 1;
    }
    false
}

/// The selection that an options string makes, or its first unknown keyword.
pub fn select(options: Option<&str>) -> (r: Result<Selection, Vec<char>>)
    ensures
        match r {
            Ok(sel) => selection_of(opt_view(options)) == Ok::<Selection, Seq<char>>(sel),
            Err(tok) => selection_of(opt_view(options)) == Err::<Selection, Seq<char>>(tok@),
        },
{
    let mut sel = Selection {
        persistence: None,
        frontend: None,
        has_grpc: false,
        has_http: true,
        has_client: false,
    };
    let text = match options {
        None => { return Ok(sel); },
        Some(text) => text,
    };
    let toks = tokens(text);
    if has_word(&toks, "sample") {
        sel.persistence = Some(PersistenceType::Postgres);
        sel.frontend = Some(FrontendType::Spa);
        return Ok(sel);
    }
    let ghost all = views(toks@);
    let mut i: usize = 0;
    assert(all.skip(0) == all);
    while i < toks.len()
        invariant
            i <= toks.len(),
            all == views(toks@),
            all == tokens_of(text@),
            !all.contains("sample"@),
            options == Some(text),
            apply_tokens(default_selection(), all) == apply_tokens(sel, all.skip(i as int)),
        decreases toks.len() - i,
    {
        assert(all.skip(i as int)[0] == toks[i as int]@);
        assert(all.skip(i as int).skip(1) == all.skip(i + 1));
        match apply_option(sel, &toks[i]) {
            Some(next) => {
                sel = next;
            },
            None => {
                let tok = toks[i].clone();
                assert(tok@ == toks[i as int]@);
                return Err(tok);
            },
        }
        i = i + 1;
    }
    Ok(sel)
}

/// `toks` without every `word`.
pub open spec fn without(toks: Seq<Seq<char>>, word: Seq<char>) -> Seq<Seq<char>>
    decreases toks.len(),
{
    if toks.len() == 0 {
        Seq::empty()
    } else if toks.last() == word {
        without(toks.drop_last(), word)
    } else {
        without(toks.drop_last(), word).push(toks.last())
    }
}

/// The keywords that the keyword `sample` makes irrelevant: every other piece
/// of an options string that holds `sample`, and nothing for a string that
/// does not.
pub open spec fn ignored_of(options: Seq<char>) -> Seq<Seq<char>> {
    if tokens_of(options).contains("sample"@) {
        without(tokens_of(options), "sample"@)
    } else {
        Seq::empty()
    }
}

/// The pieces of `options` that are ignored because it holds the keyword
/// `sample`, for the caller to warn of; empty pieces are among them.
pub fn ignored_options(options: &str) -> (r: Vec<String>)
    ensures
        r@.len() == ignored_of(options@).len(),
        forall|i: int| 0 <= i < r@.len() ==> (#[trigger] r@[i])@ == ignored_of(options@)[i],
{
    let toks = tokens(options);
    let mut ignored: Vec<String> = Vec::new();
    if !has_word(&toks, "sample") {
        return ignored;
    }
    let sample = to_chars("sample");
    let ghost all = views(toks@);
    let mut i: usize = 0;
    assert(all.take(0) == Seq::<Seq<char>>::empty());
    while i < toks.len()
        invariant
            i <= toks.len(),
            all == views(toks@),
            sample@ == "sample"@,
            ignored@.len() == without(all.take(i as int), "sample"@).len(),
            forall|j: int|
                0 <= j < ignored@.len() ==> (#[trigger] ignored@[j])@ == without(
                    all.take(i as int),
                    "sample"@,
                )[j],
        decreases toks.len() - i,
    {
        let ghost upto = all.take(i + 1);
        assert(upto.drop_last() == all.take(i as int));
        assert(upto.last() == toks[i as int]@);
        if !chars_eq(&toks[i], &sample) {
            ignored.push(from_chars(&toks[i]));
        }
        i = i + 1;
    }
    assert(all.take(i as int) == all);
    ignored
}

/// Parses the options of a project of the given type and name. The author's
/// name and address come from the caller, who looks them up; either may be
/// empty.
pub fn parse_options(
    project_type: ProjectType,
    name: &str,
    options: Option<&str>,
    author_name: &str,
    author_email: &str,
) -> (r: Result<ProjectConfig, BootsError>)
    ensures
        outcome_view(r) == parse_spec(
            project_type,
            name@,
            opt_view(options),
            author_name@,
            author_email@,
        ),
{
    match select(options) {
        Ok(sel) => Ok(
            ProjectConfig {
                name: String::from_str(name),
                project_type,
                persistence: sel.persistence,
                frontend: sel.frontend,
                has_grpc: sel.has_grpc,
                has_http: sel.has_http,
                has_client: sel.has_client,
                author_name: String::from_str(author_name),
                author_email: String::from_str(author_email),
            },
        ),
        Err(tok) => Err(BootsError::InvalidOption(from_chars(&tok))),
    }
}

} // verus!
