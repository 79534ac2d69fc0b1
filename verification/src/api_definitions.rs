//! The values that the collections endpoints answer with, and the strict
//! mapping from JSON documents to them.
//!
//! A document is accepted only where it is an object whose keys are all in the
//! shape's schema, none twice, with every required member there and every
//! member of the type that the shape gives it. A member that may be left out
//! may also be `null`.

use crate::errors::{ShapeError, ShapeErrorView};
use crate::json::{items_view, lemma_object_view, Json, JsonView};
use crate::shape::{
    first_unknown, get_items, get_optional_count, get_optional_document, get_optional_text,
    get_text, items_of, keys_view, member, optional_count_of, optional_document_of,
    optional_text_of, text_of, unknown_key,
};
use vstd::prelude::*;
use vstd::string::StringExecFns;

verus! {

/// Model of a string that may be missing.
pub open spec fn text_view(text: Option<String>) -> Option<Seq<char>> {
    match text {
        Some(text) => Some(text@),
        None => None,
    }
}

/// Model of a document that may be missing.
pub open spec fn document_view(document: Option<Json>) -> Option<JsonView> {
    match document {
        Some(document) => Some(document@),
        None => None,
    }
}

/// Entry `i` of `results` is an error.
pub open spec fn fails_at<T>(results: Seq<Result<T, ShapeErrorView>>, i: int) -> bool {
    0 <= i < results.len() && results[i] is Err
}

/// Entry `i` of `results` is the first error.
pub open spec fn first_failure_at<T>(results: Seq<Result<T, ShapeErrorView>>, i: int) -> bool {
    fails_at(results, i) && forall|j: int| 0 <= j < i ==> !fails_at(results, j)
}

/// All the values where every entry is one, else the first error.
pub open spec fn all_or_first_error<T>(results: Seq<Result<T, ShapeErrorView>>) -> Result<
    Seq<T>,
    ShapeErrorView,
> {
    if exists|i: int| fails_at(results, i) {
        Err(results[choose|i: int| first_failure_at(results, i)]->Err_0)
    } else {
        Ok(Seq::new(results.len(), |i: int| results[i]->Ok_0))
    }
}

/// A model, as the collection endpoint lists it.
#[derive(Clone, Debug, PartialEq, Eq)]
pub struct GetModel {
    pub url: String,
    pub owner: String,
    pub name: String,
    pub description: Option<String>,
    pub visibility: String,
    pub github_url: Option<String>,
    pub paper_url: Option<String>,
    pub license_url: Option<String>,
    pub run_count: Option<u64>,
    pub cover_image_url: Option<String>,
    /// An example prediction, kept as the document that was received.
    pub default_example: Option<Json>,
    /// The latest version, kept as the document that was received.
    pub latest_version: Option<Json>,
}

/// Mathematical model of a [`GetModel`].
pub struct GetModelView {
    pub url: Seq<char>,
    pub owner: Seq<char>,
    pub name: Seq<char>,
    pub description: Option<Seq<char>>,
    pub visibility: Seq<char>,
    pub github_url: Option<Seq<char>>,
    pub paper_url: Option<Seq<char>>,
    pub license_url: Option<Seq<char>>,
    pub run_count: Option<u64>,
    pub cover_image_url: Option<Seq<char>>,
    pub default_example: Option<JsonView>,
    pub latest_version: Option<JsonView>,
}

impl View for GetModel {
    type V = GetModelView;

    open spec fn view(&self) -> GetModelView {
        GetModelView {
            url: self.url@,
            owner: self.owner@,
            name: self.name@,
            description: text_view(self.description),
            visibility: self.visibility@,
            github_url: text_view(self.github_url),
            paper_url: text_view(self.paper_url),
            license_url: text_view(self.license_url),
            run_count: self.run_count,
            cover_image_url: text_view(self.cover_image_url),
            default_example: document_view(self.default_example),
            latest_version: document_view(self.latest_version),
        }
    }
}

/// The keys that a model may have.
pub open spec fn model_schema() -> Seq<Seq<char>> {
    seq![
        "url"@,
        "owner"@,
        "name"@,
        "description"@,
        "visibility"@,
        "github_url"@,
        "paper_url"@,
        "license_url"@,
        "run_count"@,
        "cover_image_url"@,
        "default_example"@,
        "latest_version"@,
    ]
}

/// The model that a document denotes, or why it denotes none. An unknown key
/// is reported before any member is read; the members are then read in the
/// schema's order and the first error is the result.
pub open spec fn model_of(json: JsonView) -> Result<GetModelView, ShapeErrorView> {
    match json {
        JsonView::Object(members) => {
            let url = text_of(members, "url"@);
            let owner = text_of(members, "owner"@);
            let name = text_of(members, "name"@);
            let description = optional_text_of(members, "description"@);
            let visibility = text_of(members, "visibility"@);
            let github_url = optional_text_of(members, "github_url"@);
            let paper_url = optional_text_of(members, "paper_url"@);
            let license_url = optional_text_of(members, "license_url"@);
            let run_count = optional_count_of(members, "run_count"@);
            let cover_image_url = optional_text_of(members, "cover_image_url"@);
            let default_example = optional_document_of(members, "default_example"@);
            let latest_version = optional_document_of(members, "latest_version"@);
            if first_unknown(members, model_schema()) is Some {
                Err(ShapeErrorView::UnknownField(first_unknown(members, model_schema())->0))
            } else if url is Err {
                Err(url->Err_0)
            } else if owner is Err {
                Err(owner->Err_0)
            } else if name is Err {
                Err(name->Err_0)
            } else if description is Err {
                Err(description->Err_0)
            } else if visibility is Err {
                Err(visibility->Err_0)
            } else if github_url is Err {
                Err(github_url->Err_0)
            } else if paper_url is Err {
                Err(paper_url->Err_0)
            } else if license_url is Err {
                Err(license_url->Err_0)
            } else if run_count is Err {
                Err(run_count->Err_0)
            } else if cover_image_url is Err {
                Err(cover_image_url->Err_0)
            } else if default_example is Err {
                Err(default_example->Err_0)
            } else if latest_version is Err {
                Err(latest_version->Err_0)
            } else {
                Ok(
                    GetModelView {
                        url: url->Ok_0,
                        owner: owner->Ok_0,
                        name: name->Ok_0,
                        description: description->Ok_0,
                        visibility: visibility->Ok_0,
                        github_url: github_url->Ok_0,
                        paper_url: paper_url->Ok_0,
                        license_url: license_url->Ok_0,
                        run_count: run_count->Ok_0,
                        cover_image_url: cover_image_url->Ok_0,
                        default_example: default_example->Ok_0,
                        latest_version: latest_version->Ok_0,
                    },
                )
            }
        },
        _ => Err(ShapeErrorView::NotAnObject),
    }
}

/// The models that the items of an array denote, or the error of the first
/// item that denotes none.
pub open spec fn models_of(items: Seq<JsonView>) -> Result<Seq<GetModelView>, ShapeErrorView> {
    all_or_first_error(Seq::new(items.len(), |i: int| model_of(items[i])))
}

fn model_keys() -> (keys: Vec<String>)
    ensures
        keys_view(&keys) == model_schema(),
{
    let mut keys: Vec<String> = Vec::new();
    keys.push(String::from_str("url"));
    keys.push(String::from_str("owner"));
    keys.push(String::from_str("name"));
    keys.push(String::from_str("description"));
    keys.push(String::from_str("visibility"));
    keys.push(String::from_str("github_url"));
    keys.push(String::from_str("paper_url"));
    keys.push(String::from_str("license_url"));
    keys.push(String::from_str("run_count"));
    keys.push(String::from_str("cover_image_url"));
    keys.push(String::from_str("default_example"));
    keys.push(String::from_str("latest_version"));
    assert(keys_view(&keys) =~= model_schema());
    keys
}

impl GetModel {
    /// Reads a model from a document.
    pub fn from_json(json: &Json) -> (result: Result<GetModel, ShapeError>)
        ensures
            match result {
                Ok(model) => model_of(json@) == Ok::<GetModelView, ShapeErrorView>(model@),
                Err(error) => model_of(json@) == Err::<GetModelView, ShapeErrorView>(error@),
            },
    {
        match json {
            Json::Object(members) => {
                proof {
                    lemma_object_view(*json);
                }
                let schema = model_keys();
                if let Some(key) = unknown_key(members, &schema) {
                    return Err(ShapeError::UnknownField(key));
                }
                let url = get_text(members, "url")?;
                let owner = get_text(members, "owner")?;
                let name = get_text(members, "name")?;
                let description = get_optional_text(members, "description")?;
                let visibility = get_text(members, "visibility")?;
                let github_url = get_optional_text(members, "github_url")?;
                let paper_url = get_optional_text(members, "paper_url")?;
                let license_url = get_optional_text(members, "license_url")?;
                let run_count = get_optional_count(members, "run_count")?;
                let cover_image_url = get_optional_text(members, "cover_image_url")?;
                let default_example = get_optional_document(members, "default_example")?;
                let latest_version = get_optional_document(members, "latest_version")?;
                Ok(
                    GetModel {
                        url,
                        owner,
                        name,
                        description,
                        visibility,
                        github_url,
                        paper_url,
                        license_url,
                        run_count,
                        cover_image_url,
                        default_example,
                        latest_version,
                    },
                )
            },
            _ => Err(ShapeError::NotAnObject),
        }
    }
}

/// Model of a list of models.
pub open spec fn models_view(models: &Vec<GetModel>) -> Seq<GetModelView> {
    Seq::new(models@.len(), |i: int| models@[i]@)
}

/// Reads the models that the items of an array denote.
fn models_from(items: &Vec<Json>) -> (result: Result<Vec<GetModel>, ShapeError>)
    ensures
        match result {
            Ok(models) => models_of(items_view(items)) == Ok::<Seq<GetModelView>, ShapeErrorView>(
                models_view(&models),
            ),
            Err(error) => models_of(items_view(items)) == Err::<
                Seq<GetModelView>,
                ShapeErrorView,
            >(error@),
        },
{
    let ghost results = Seq::new(
        items_view(items).len(),
        |i: int| model_of(items_view(items)[i]),
    );
    let mut models: Vec<GetModel> = Vec::new();
    let mut i: usize = 0;
    while i < items.len()
        invariant
            i <= items.len(),
            models@.len() == i,
            results == Seq::new(items_view(items).len(), |i: int| model_of(items_view(items)[i])),
            forall|k: int| 0 <= k < i ==> !fails_at(results, k) && results[k]->Ok_0 == models@[k]@,
        decreases items.len() - i,
    {
        match GetModel::from_json(&items[i]) {
            Ok(model) => {
                models.push(model);
            },
            Err(error) => {
                assert(first_failure_at(results, i as int));
                return Err(error);
            },
        }
        i += 1;
    }
    assert(Seq::new(results.len(), |i: int| results[i]->Ok_0) =~= models_view(&models)) by {
        assert forall|k: int| 0 <= k < results.len() implies results[k]->Ok_0 == models@[k]@ by {
            assert(!fails_at(results, k));
        }
    }
    Ok(models)
}

/// A collection with the models in it: the answer to a request for one
/// collection.
#[derive(Clone, Debug, PartialEq, Eq)]
pub struct GetCollectionModels {
    pub name: String,
    pub slug: String,
    pub description: String,
    pub models: Vec<GetModel>,
}

/// Mathematical model of a [`GetCollectionModels`].
pub struct GetCollectionModelsView {
    pub name: Seq<char>,
    pub slug: Seq<char>,
    pub description: Seq<char>,
    pub models: Seq<GetModelView>,
}

impl View for GetCollectionModels {
    type V = GetCollectionModelsView;

    open spec fn view(&self) -> GetCollectionModelsView {
        GetCollectionModelsView {
            name: self.name@,
            slug: self.slug@,
            description: self.description@,
            models: models_view(&self.models),
        }
    }
}

/// The keys that a collection may have.
pub open spec fn collection_schema() -> Seq<Seq<char>> {
    seq!["name"@, "slug"@, "description"@, "models"@]
}

/// The collection that a document denotes, or why it denotes none. An
/// unknown key is reported before any member is read; the members are then
/// read in the schema's order and the first error is the result.
pub open spec fn collection_of(json: JsonView) -> Result<GetCollectionModelsView, ShapeErrorView> {
    match json {
        JsonView::Object(members) => {
            let name = text_of(members, "name"@);
            let slug = text_of(members, "slug"@);
            let description = text_of(members, "description"@);
            let models = match items_of(members, "models"@) {
                Ok(items) => models_of(items),
                Err(error) => Err(error),
            };
            if first_unknown(members, collection_schema()) is Some {
                Err(ShapeErrorView::UnknownField(first_unknown(members, collection_schema())->0))
            } else if name is Err {
                Err(name->Err_0)
            } else if slug is Err {
                Err(slug->Err_0)
            } else if description is Err {
                Err(description->Err_0)
            } else if models is Err {
                Err(models->Err_0)
            } else {
                Ok(
                    GetCollectionModelsView {
                        name: name->Ok_0,
                        slug: slug->Ok_0,
                        description: description->Ok_0,
                        models: models->Ok_0,
                    },
                )
            }
        },
        _ => Err(ShapeErrorView::NotAnObject),
    }
}

fn collection_keys() -> (keys: Vec<String>)
    ensures
        keys_view(&keys) == collection_schema(),
{
    let mut keys: Vec<String> = Vec::new();
    keys.push(String::from_str("name"));
    keys.push(String::from_str("slug"));
    keys.push(String::from_str("description"));
    keys.push(String::from_str("models"));
    assert(keys_view(&keys) =~= collection_schema());
    keys
}

impl GetCollectionModels {
    /// Reads a collection from a document.
    pub fn from_json(json: &Json) -> (result: Result<GetCollectionModels, ShapeError>)
        ensures
            match result {
                Ok(collection) => collection_of(json@) == Ok::<
                    GetCollectionModelsView,
                    ShapeErrorView,
                >(collection@),
                Err(error) => collection_of(json@) == Err::<
                    GetCollectionModelsView,
                    ShapeErrorView,
                >(error@),
            },
    {
        match json {
            Json::Object(members) => {
                proof {
                    lemma_object_view(*json);
                }
                let schema = collection_keys();
                if let Some(key) = unknown_key(members, &schema) {
                    return Err(ShapeError::UnknownField(key));
                }
                let name = get_text(members, "name")?;
                let slug = get_text(members, "slug")?;
                let description = get_text(members, "description")?;
                let items = get_items(members, "models")?;
                let models = models_from(items)?;
                Ok(GetCollectionModels { name, slug, description, models })
            },
            _ => Err(ShapeError::NotAnObject),
        }
    }
}

/// A collection as the list of collections shows it.
#[derive(Clone, Debug, PartialEq, Eq)]
pub struct ListCollectionModelsItem {
    pub name: String,
    pub slug: String,
    pub description: String,
}

/// Mathematical model of a [`ListCollectionModelsItem`].
pub struct ListCollectionModelsItemView {
    pub name: Seq<char>,
    pub slug: Seq<char>,
    pub description: Seq<char>,
}

impl View for ListCollectionModelsItem {
    type V = ListCollectionModelsItemView;

    open spec fn view(&self) -> ListCollectionModelsItemView {
        ListCollectionModelsItemView {
            name: self.name@,
            slug: self.slug@,
            description: self.description@,
        }
    }
}

/// The keys that an entry of the list may have.
pub open spec fn entry_schema() -> Seq<Seq<char>> {
    seq!["name"@, "slug"@, "description"@]
}

/// The entry that a document denotes, or why it denotes none.
pub open spec fn entry_of(json: JsonView) -> Result<ListCollectionModelsItemView, ShapeErrorView> {
    match json {
        JsonView::Object(members) => {
            let name = text_of(members, "name"@);
            let slug = text_of(members, "slug"@);
            let description = text_of(members, "description"@);
            if first_unknown(members, entry_schema()) is Some {
                Err(ShapeErrorView::UnknownField(first_unknown(members, entry_schema())->0))
            } else if name is Err {
                Err(name->Err_0)
            } else if slug is Err {
                Err(slug->Err_0)
            } else if description is Err {
                Err(description->Err_0)
            } else {
                Ok(
                    ListCollectionModelsItemView {
                        name: name->Ok_0,
                        slug: slug->Ok_0,
                        description: description->Ok_0,
                    },
                )
            }
        },
        _ => Err(ShapeErrorView::NotAnObject),
    }
}

/// The entries that the items of an array denote, or the error of the first
/// item that denotes none.
pub open spec fn entries_of(items: Seq<JsonView>) -> Result<
    Seq<ListCollectionModelsItemView>,
    ShapeErrorView,
> {
    all_or_first_error(Seq::new(items.len(), |i: int| entry_of(items[i])))
}

fn entry_keys() -> (keys: Vec<String>)
    ensures
        keys_view(&keys) == entry_schema(),
{
    let mut keys: Vec<String> = Vec::new();
    keys.push(String::from_str("name"));
    keys.push(String::from_str("slug"));
    keys.push(String::from_str("description"));
    assert(keys_view(&keys) =~= entry_schema());
    keys
}

impl ListCollectionModelsItem {
    /// Reads an entry of the list from a document.
    pub fn from_json(json: &Json) -> (result: Result<ListCollectionModelsItem, ShapeError>)
        ensures
            match result {
                Ok(entry) => entry_of(json@) == Ok::<ListCollectionModelsItemView, ShapeErrorView>(
                    entry@,
                ),
                Err(error) => entry_of(json@) == Err::<
                    ListCollectionModelsItemView,
                    ShapeErrorView,
                >(error@),
            },
    {
        match json {
            Json::Object(members) => {
                proof {
                    lemma_object_view(*json);
                }
                let schema = entry_keys();
                if let Some(key) = unknown_key(members, &schema) {
                    return Err(ShapeError::UnknownField(key));
                }
                let name = get_text(members, "name")?;
                let slug = get_text(members, "slug")?;
                let description = get_text(members, "description")?;
                Ok(ListCollectionModelsItem { name, slug, description })
            },
            _ => Err(ShapeError::NotAnObject),
        }
    }
}

/// Model of a list of entries.
pub open spec fn entries_view(entries: &Vec<ListCollectionModelsItem>) -> Seq<
    ListCollectionModelsItemView,
> {
    Seq::new(entries@.len(), |i: int| entries@[i]@)
}

/// Reads the entries that the items of an array denote.
fn entries_from(items: &Vec<Json>) -> (result: Result<Vec<ListCollectionModelsItem>, ShapeError>)
    ensures
        match result {
            Ok(entries) => entries_of(items_view(items)) == Ok::<
                Seq<ListCollectionModelsItemView>,
                ShapeErrorView,
            >(entries_view(&entries)),
            Err(error) => entries_of(items_view(items)) == Err::<
                Seq<ListCollectionModelsItemView>,
                ShapeErrorView,
            >(error@),
        },
{
    let ghost results = Seq::new(
        items_view(items).len(),
        |i: int| entry_of(items_view(items)[i]),
    );
    let mut entries: Vec<ListCollectionModelsItem> = Vec::new();
    let mut i: usize = 0;
    while i < items.len()
        invariant
            i <= items.len(),
            entries@.len() == i,
            results == Seq::new(items_view(items).len(), |i: int| entry_of(items_view(items)[i])),
            forall|k: int| 0 <= k < i ==> !fails_at(results, k) && results[k]->Ok_0 == entries@[k]@,
        decreases items.len() - i,
    {
        match ListCollectionModelsItem::from_json(&items[i]) {
            Ok(entry) => {
                entries.push(entry);
            },
            Err(error) => {
                assert(first_failure_at(results, i as int));
                return Err(error);
            },
        }
        i += 1;
    }
    assert(Seq::new(results.len(), |i: int| results[i]->Ok_0) =~= entries_view(&entries)) by {
        assert forall|k: int| 0 <= k < results.len() implies results[k]->Ok_0 == entries@[k]@ by {
            assert(!fails_at(results, k));
        }
    }
    Ok(entries)
}

/// One page of the list of collections. `next` and `previous` are the URLs of
/// the neighbouring pages, where there are any; following them is left to the
/// caller.
#[derive(Clone, Debug, PartialEq, Eq)]
pub struct ListCollectionModels {
    pub results: Vec<ListCollectionModelsItem>,
    pub next: Option<String>,
    pub previous: Option<String>,
}

/// Mathematical model of a [`ListCollectionModels`].
pub struct ListCollectionModelsView {
    pub results: Seq<ListCollectionModelsItemView>,
    pub next: Option<Seq<char>>,
    pub previous: Option<Seq<char>>,
}

impl View for ListCollectionModels {
    type V = ListCollectionModelsView;

    open spec fn view(&self) -> ListCollectionModelsView {
        ListCollectionModelsView {
            results: entries_view(&self.results),
            next: text_view(self.next),
            previous: text_view(self.previous),
        }
    }
}

/// The keys that a page may have.
pub open spec fn page_schema() -> Seq<Seq<char>> {
    seq!["results"@, "next"@, "previous"@]
}

/// The page that a document denotes, or why it denotes none. An unknown key
/// is reported before any member is read; the members are then read in the
/// schema's order and the first error is the result.
pub open spec fn page_of(json: JsonView) -> Result<ListCollectionModelsView, ShapeErrorView> {
    match json {
        JsonView::Object(members) => {
            let results = match items_of(members, "results"@) {
                Ok(items) => entries_of(items),
                Err(error) => Err(error),
            };
            let next = optional_text_of(members, "next"@);
            let previous = optional_text_of(members, "previous"@);
            if first_unknown(members, page_schema()) is Some {
                Err(ShapeErrorView::UnknownField(first_unknown(members, page_schema())->0))
            } else if results is Err {
                Err(results->Err_0)
            } else if next is Err {
                Err(next->Err_0)
            } else if previous is Err {
                Err(previous->Err_0)
            } else {
                Ok(
                    ListCollectionModelsView {
                        results: results->Ok_0,
                        next: next->Ok_0,
                        previous: previous->Ok_0,
                    },
                )
            }
        },
        _ => Err(ShapeErrorView::NotAnObject),
    }
}

fn page_keys() -> (keys: Vec<String>)
    ensures
        keys_view(&keys) == page_schema(),
{
    let mut keys: Vec<String> = Vec::new();
    keys.push(String::from_str("results"));
    keys.push(String::from_str("next"));
    keys.push(String::from_str("previous"));
    assert(keys_view(&keys) =~= page_schema());
    keys
}

impl ListCollectionModels {
    /// Reads a page of the list of collections from a document.
    pub fn from_json(json: &Json) -> (result: Result<ListCollectionModels, ShapeError>)
        ensures
            match result {
                Ok(page) => page_of(json@) == Ok::<ListCollectionModelsView, ShapeErrorView>(
                    page@,
                ),
                Err(error) => page_of(json@) == Err::<ListCollectionModelsView, ShapeErrorView>(
                    error@,
                ),
            },
    {
        match json {
            Json::Object(members) => {
                proof {
                    lemma_object_view(*json);
                }
                let schema = page_keys();
                if let Some(key) = unknown_key(members, &schema) {
                    return Err(ShapeError::UnknownField(key));
                }
                let items = get_items(members, "results")?;
                let results = entries_from(items)?;
                let next = get_optional_text(members, "next")?;
                let previous = get_optional_text(members, "previous")?;
                Ok(ListCollectionModels { results, next, previous })
            },
            _ => Err(ShapeError::NotAnObject),
        }
    }
}

/// Where every entry of `results` is a value, the values come out in order
/// and none is lost.
pub proof fn lemma_all_values<T>(results: Seq<Result<T, ShapeErrorView>>)
    requires
        all_or_first_error(results) is Ok,
    ensures
        all_or_first_error(results)->Ok_0.len() == results.len(),
        forall|i: int|
            0 <= i < results.len() ==> results[i] == Ok::<T, ShapeErrorView>(
                #[trigger] all_or_first_error(results)->Ok_0[i],
            ),
{
    assert forall|i: int| 0 <= i < results.len() implies results[i] == Ok::<T, ShapeErrorView>(
        #[trigger] all_or_first_error(results)->Ok_0[i],
    ) by {
        assert(!fails_at(results, i));
    }
}

/// Decoding a model takes every field from the member of its name: where a
/// document denotes a model, the document is an object that has no key
/// outside the schema, the required texts are the strings under `url`,
/// `owner`, `name` and `visibility`, and every other field is what the member
/// of its name holds, or nothing where that member is `null` or left out.
pub proof fn lemma_model_fields(json: JsonView)
    requires
        model_of(json) is Ok,
    ensures
        json is Object,
        first_unknown(json->Object_0, model_schema()) is None,
        member(json->Object_0, "url"@) == Ok::<Option<JsonView>, ShapeErrorView>(
            Some(JsonView::String(model_of(json)->Ok_0.url)),
        ),
        member(json->Object_0, "owner"@) == Ok::<Option<JsonView>, ShapeErrorView>(
            Some(JsonView::String(model_of(json)->Ok_0.owner)),
        ),
        member(json->Object_0, "name"@) == Ok::<Option<JsonView>, ShapeErrorView>(
            Some(JsonView::String(model_of(json)->Ok_0.name)),
        ),
        member(json->Object_0, "visibility"@) == Ok::<Option<JsonView>, ShapeErrorView>(
            Some(JsonView::String(model_of(json)->Ok_0.visibility)),
        ),
        optional_text_of(json->Object_0, "description"@) == Ok::<
            Option<Seq<char>>,
            ShapeErrorView,
        >(model_of(json)->Ok_0.description),
        optional_text_of(json->Object_0, "github_url"@) == Ok::<Option<Seq<char>>, ShapeErrorView>(
            model_of(json)->Ok_0.github_url,
        ),
        optional_text_of(json->Object_0, "paper_url"@) == Ok::<Option<Seq<char>>, ShapeErrorView>(
            model_of(json)->Ok_0.paper_url,
        ),
        optional_text_of(json->Object_0, "license_url"@) == Ok::<
            Option<Seq<char>>,
            ShapeErrorView,
        >(model_of(json)->Ok_0.license_url),
        optional_count_of(json->Object_0, "run_count"@) == Ok::<Option<u64>, ShapeErrorView>(
            model_of(json)->Ok_0.run_count,
        ),
        optional_text_of(json->Object_0, "cover_image_url"@) == Ok::<
            Option<Seq<char>>,
            ShapeErrorView,
        >(model_of(json)->Ok_0.cover_image_url),
        optional_document_of(json->Object_0, "default_example"@) == Ok::<
            Option<JsonView>,
            ShapeErrorView,
        >(model_of(json)->Ok_0.default_example),
        optional_document_of(json->Object_0, "latest_version"@) == Ok::<
            Option<JsonView>,
            ShapeErrorView,
        >(model_of(json)->Ok_0.latest_version),
{
}

/// Decoding a collection takes every field from the member of its name:
/// where a document denotes a collection, the document is an object that has
/// no key outside the schema, the texts of the collection are the strings
/// under `name`, `slug` and `description`, and its models are what the items
/// of the array under `models` denote, one for one and in order.
pub proof fn lemma_collection_fields(json: JsonView)
    requires
        collection_of(json) is Ok,
    ensures
        json is Object,
        first_unknown(json->Object_0, collection_schema()) is None,
        member(json->Object_0, "name"@) == Ok::<Option<JsonView>, ShapeErrorView>(
            Some(JsonView::String(collection_of(json)->Ok_0.name)),
        ),
        member(json->Object_0, "slug"@) == Ok::<Option<JsonView>, ShapeErrorView>(
            Some(JsonView::String(collection_of(json)->Ok_0.slug)),
        ),
        member(json->Object_0, "description"@) == Ok::<Option<JsonView>, ShapeErrorView>(
            Some(JsonView::String(collection_of(json)->Ok_0.description)),
        ),
        member(json->Object_0, "models"@) matches Ok(Some(JsonView::Array(items)))
            && items.len() == collection_of(json)->Ok_0.models.len() && forall|i: int|
            0 <= i < items.len() ==> model_of(items[i]) == Ok::<GetModelView, ShapeErrorView>(
                #[trigger] collection_of(json)->Ok_0.models[i],
            ),
{
    let members = json->Object_0;
    let items = items_of(members, "models"@)->Ok_0;
    lemma_all_values(Seq::new(items.len(), |i: int| model_of(items[i])));
}

/// Decoding an entry of the list takes every field from the member of its
/// name: where a document denotes an entry, the document is an object that
/// has no key outside the schema, and the texts of the entry are the strings
/// under `name`, `slug` and `description`.
pub proof fn lemma_entry_fields(json: JsonView)
    requires
        entry_of(json) is Ok,
    ensures
        json is Object,
        first_unknown(json->Object_0, entry_schema()) is None,
        member(json->Object_0, "name"@) == Ok::<Option<JsonView>, ShapeErrorView>(
            Some(JsonView::String(entry_of(json)->Ok_0.name)),
        ),
        member(json->Object_0, "slug"@) == Ok::<Option<JsonView>, ShapeErrorView>(
            Some(JsonView::String(entry_of(json)->Ok_0.slug)),
        ),
        member(json->Object_0, "description"@) == Ok::<Option<JsonView>, ShapeErrorView>(
            Some(JsonView::String(entry_of(json)->Ok_0.description)),
        ),
{
}

/// Decoding a page takes every field from the member of its name: where a
/// document denotes a page, the document is an object that has no key outside
/// the schema, the results are what the items of the array under `results`
/// denote, one for one and in order, and `next` and `previous` are the
/// strings under these names, or nothing where the member is `null` or left
/// out.
pub proof fn lemma_page_fields(json: JsonView)
    requires
        page_of(json) is Ok,
    ensures
        json is Object,
        first_unknown(json->Object_0, page_schema()) is None,
        member(json->Object_0, "results"@) matches Ok(Some(JsonView::Array(items)))
            && items.len() == page_of(json)->Ok_0.results.len() && forall|i: int|
            0 <= i < items.len() ==> entry_of(items[i]) == Ok::<
                ListCollectionModelsItemView,
                ShapeErrorView,
            >(#[trigger] page_of(json)->Ok_0.results[i]),
        optional_text_of(json->Object_0, "next"@) == Ok::<Option<Seq<char>>, ShapeErrorView>(
            page_of(json)->Ok_0.next,
        ),
        optional_text_of(json->Object_0, "previous"@) == Ok::<Option<Seq<char>>, ShapeErrorView>(
            page_of(json)->Ok_0.previous,
        ),
{
    let members = json->Object_0;
    let items = items_of(members, "results"@)->Ok_0;
    lemma_all_values(Seq::new(items.len(), |i: int| entry_of(items[i])));
}

} // verus!
