//! Listings of offices and of procedures.
//!
//! The service offers both as the options of a `<select>` element: the
//! options stand in groups, the group's label is the office's district or the
//! procedure's category, an option's value is the identifier and its content
//! the name.

use vstd::prelude::*;
use crate::error::ParseError;
use crate::html::{
    attribute_of, document_matches, element_attribute, element_inner_html, element_matches,
    html_document, inner_html_of, parse_html, select_in_document, select_in_element,
};
use crate::model::{OfficeId, ProcedureId};
use crate::text::{decimal_u32, parse_u32};

verus! {

/// The selector of the `<select>` that lists the offices.
pub const OFFICES_SELECT: &'static str = "select[id=selectOficinas]";

/// The selector of the `<select>` that lists the procedures.
pub const PROCEDURES_SELECT: &'static str = "select[id=selectTramites]";

/// The selector of the groups of a `<select>`.
pub const OPTION_GROUP: &'static str = "optgroup";

/// The selector of the options of a group.
pub const OPTION: &'static str = "option";

/// One option of a listing: the label of its group, its name and its
/// identifier.
#[derive(Debug)]
pub struct ListedOption {
    pub group: String,
    pub name: String,
    pub id: u32,
}

/// What a [`ListedOption`] holds.
pub struct Listed {
    pub group: Seq<char>,
    pub name: Seq<char>,
    pub id: u32,
}

impl View for ListedOption {
    type V = Listed;

    open spec fn view(&self) -> Listed {
        Listed { group: self.group@, name: self.name@, id: self.id }
    }
}

impl DeepView for ListedOption {
    type V = Listed;

    open spec fn deep_view(&self) -> Listed {
        self@
    }
}

/// An office as the listing of offices shows it.
#[derive(Debug)]
pub struct NetOfficeBasicInfoModel {
    pub name: String,
    pub group: String,
    pub id: OfficeId,
}

/// A procedure as the listing of procedures shows it.
#[derive(Debug)]
pub struct NetProcedureModel {
    pub procedure_category: String,
    pub procedure_name: String,
    pub procedure_id: ProcedureId,
}

/// What a [`NetOfficeBasicInfoModel`] holds.
pub struct ListedOffice {
    pub name: Seq<char>,
    pub group: Seq<char>,
    pub id: OfficeId,
}

/// What a [`NetProcedureModel`] holds.
pub struct ListedProcedure {
    pub procedure_category: Seq<char>,
    pub procedure_name: Seq<char>,
    pub procedure_id: ProcedureId,
}

impl View for NetOfficeBasicInfoModel {
    type V = ListedOffice;

    open spec fn view(&self) -> ListedOffice {
        ListedOffice { name: self.name@, group: self.group@, id: self.id }
    }
}

impl DeepView for NetOfficeBasicInfoModel {
    type V = ListedOffice;

    open spec fn deep_view(&self) -> ListedOffice {
        self@
    }
}

impl View for NetProcedureModel {
    type V = ListedProcedure;

    open spec fn view(&self) -> ListedProcedure {
        ListedProcedure {
            procedure_category: self.procedure_category@,
            procedure_name: self.procedure_name@,
            procedure_id: self.procedure_id,
        }
    }
}

impl DeepView for NetProcedureModel {
    type V = ListedProcedure;

    open spec fn deep_view(&self) -> ListedProcedure {
        self@
    }
}

/// One `<option>` as the page holds it: its `value`, if it has one, and the
/// markup inside it.
#[derive(Debug)]
pub struct OptionElement {
    pub value: Option<String>,
    pub content: String,
}

/// One `<optgroup>` as the page holds it: its `label`, if it has one, and
/// the options below it, in the order of the page.
#[derive(Debug)]
pub struct OptionGroupElement {
    pub label: Option<String>,
    pub options: Vec<OptionElement>,
}

/// One `<select>` as the page holds it: the groups below it, in the order of
/// the page.
#[derive(Debug)]
pub struct SelectElement {
    pub groups: Vec<OptionGroupElement>,
}

/// What an [`OptionElement`] holds.
pub struct OptionNode {
    pub value: Option<Seq<char>>,
    pub content: Seq<char>,
}

/// What an [`OptionGroupElement`] holds.
pub struct OptionGroupNode {
    pub label: Option<Seq<char>>,
    pub options: Seq<OptionNode>,
}

/// What a [`SelectElement`] holds.
pub struct SelectNode {
    pub groups: Seq<OptionGroupNode>,
}

impl View for OptionElement {
    type V = OptionNode;

    open spec fn view(&self) -> OptionNode {
        OptionNode { value: self.value.deep_view(), content: self.content@ }
    }
}

impl DeepView for OptionElement {
    type V = OptionNode;

    open spec fn deep_view(&self) -> OptionNode {
        self@
    }
}

impl View for OptionGroupElement {
    type V = OptionGroupNode;

    open spec fn view(&self) -> OptionGroupNode {
        OptionGroupNode { label: self.label.deep_view(), options: self.options.deep_view() }
    }
}

impl DeepView for OptionGroupElement {
    type V = OptionGroupNode;

    open spec fn deep_view(&self) -> OptionGroupNode {
        self@
    }
}

impl View for SelectElement {
    type V = SelectNode;

    open spec fn view(&self) -> SelectNode {
        SelectNode { groups: self.groups.deep_view() }
    }
}

impl DeepView for SelectElement {
    type V = SelectNode;

    open spec fn deep_view(&self) -> SelectNode {
        self@
    }
}

/// The options that a run of `<option>` elements holds.
pub open spec fn option_nodes(options: Seq<scraper::ElementRef<'static>>) -> Seq<OptionNode> {
    Seq::new(
        options.len(),
        |i: int|
            OptionNode {
                value: element_attribute(options[i], "value"@),
                content: element_inner_html(options[i]),
            },
    )
}

/// The groups that a run of `<optgroup>` elements holds; the options of a
/// group are the `<option>` elements below it.
pub open spec fn group_nodes(groups: Seq<scraper::ElementRef<'static>>) -> Seq<OptionGroupNode> {
    Seq::new(
        groups.len(),
        |i: int|
            OptionGroupNode {
                label: element_attribute(groups[i], "label"@),
                options: option_nodes(element_matches(groups[i], OPTION@)),
            },
    )
}

/// The first element of a document that matches `select`, with the
/// `<optgroup>` elements below it; `None` where no element matches.
pub open spec fn select_node(document: scraper::Html, select: Seq<char>) -> Option<SelectNode> {
    let selects = document_matches(document, select);
    if selects.len() == 0 {
        None
    } else {
        Some(SelectNode { groups: group_nodes(element_matches(selects[0], OPTION_GROUP@)) })
    }
}

/// What an option lists, given the label of its group, its content and its
/// value: the value must be there and must write an identifier in decimal.
pub open spec fn listed_entry(group: Seq<char>, name: Seq<char>, value: Option<Seq<char>>)
    -> Result<Listed, ParseError> {
    match value {
        Some(value) => match decimal_u32(value) {
            Some(id) => Ok(Listed { group, name, id }),
            None => Err(ParseError::InvalidId),
        },
        None => Err(ParseError::MissingValue),
    }
}

/// What the options of a group list, in order.  The first option that fails
/// fails them all.
pub open spec fn listed_options(group: Seq<char>, options: Seq<OptionNode>) -> Result<
    Seq<Listed>,
    ParseError,
>
    decreases options.len(),
{
    if options.len() == 0 {
        Ok(Seq::empty())
    } else {
        match listed_options(group, options.drop_last()) {
            Ok(before) => match listed_entry(group, options.last().content, options.last().value) {
                Ok(listed) => Ok(before.push(listed)),
                Err(e) => Err(e),
            },
            Err(e) => Err(e),
        }
    }
}

/// What one group lists: it must carry a label, which goes with each of its
/// options.
pub open spec fn listed_group(group: OptionGroupNode) -> Result<Seq<Listed>, ParseError> {
    match group.label {
        Some(label) => listed_options(label, group.options),
        None => Err(ParseError::MissingLabel),
    }
}

/// What a run of groups lists, flattened in order.  The first failure fails
/// the whole listing.
pub open spec fn listed_groups(groups: Seq<OptionGroupNode>) -> Result<Seq<Listed>, ParseError>
    decreases groups.len(),
{
    if groups.len() == 0 {
        Ok(Seq::empty())
    } else {
        match listed_groups(groups.drop_last()) {
            Ok(before) => match listed_group(groups.last()) {
                Ok(listed) => Ok(before + listed),
                Err(e) => Err(e),
            },
            Err(e) => Err(e),
        }
    }
}

/// What a `<select>` lists.  The element must be there and must hold at
/// least one group.
pub open spec fn listed_in(select: Option<SelectNode>) -> Result<Seq<Listed>, ParseError> {
    match select {
        Some(select) => if select.groups.len() == 0 {
            Err(ParseError::MissingOptgroup)
        } else {
            listed_groups(select.groups)
        },
        None => Err(ParseError::MissingSelect),
    }
}

/// What a document lists under the first element that matches `select`.
pub open spec fn listed_in_document(document: scraper::Html, select: Seq<char>) -> Result<
    Seq<Listed>,
    ParseError,
> {
    listed_in(select_node(document, select))
}

/// What a page lists under the first element that matches `select`.
pub open spec fn listing_of(body: Seq<char>, select: Seq<char>) -> Result<Seq<Listed>, ParseError> {
    listed_in_document(html_document(body), select)
}

/// The office that an option of the listing of offices stands for.
pub open spec fn office_of(listed: Listed) -> ListedOffice {
    ListedOffice { name: listed.name, group: listed.group, id: OfficeId(listed.id) }
}

/// The procedure that an option of the listing of procedures stands for.
pub open spec fn procedure_of(listed: Listed) -> ListedProcedure {
    ListedProcedure {
        procedure_category: listed.group,
        procedure_name: listed.name,
        procedure_id: ProcedureId(listed.id),
    }
}

/// The offices that a page lists.
pub open spec fn offices_of(body: Seq<char>) -> Result<Seq<ListedOffice>, ParseError> {
    match listing_of(body, OFFICES_SELECT@) {
        Ok(listed) => Ok(listed.map_values(|l: Listed| office_of(l))),
        Err(e) => Err(e),
    }
}

/// The procedures that a page lists.
pub open spec fn procedures_of(body: Seq<char>) -> Result<Seq<ListedProcedure>, ParseError> {
    match listing_of(body, PROCEDURES_SELECT@) {
        Ok(listed) => Ok(listed.map_values(|l: Listed| procedure_of(l))),
        Err(e) => Err(e),
    }
}

/// The view of a listing or of the failure to read one.
pub open spec fn listing_view(outcome: Result<Vec<ListedOption>, ParseError>) -> Result<
    Seq<Listed>,
    ParseError,
> {
    match outcome {
        Ok(listed) => Ok(listed.deep_view()),
        Err(e) => Err(e),
    }
}

/// The view of a list of offices or of the failure to read one.
pub open spec fn offices_view(outcome: Result<Vec<NetOfficeBasicInfoModel>, ParseError>) -> Result<
    Seq<ListedOffice>,
    ParseError,
> {
    match outcome {
        Ok(offices) => Ok(offices.deep_view()),
        Err(e) => Err(e),
    }
}

/// The view of a list of procedures or of the failure to read one.
pub open spec fn procedures_view(outcome: Result<Vec<NetProcedureModel>, ParseError>) -> Result<
    Seq<ListedProcedure>,
    ParseError,
> {
    match outcome {
        Ok(procedures) => Ok(procedures.deep_view()),
        Err(e) => Err(e),
    }
}

/// Makes the entry of an option from the label of its group, its content and
/// its value.
pub fn list_option(group: &str, name: &str, value: &Option<String>) -> (outcome: Result<
    ListedOption,
    ParseError,
>)
    ensures
        match outcome {
            Ok(listed) => listed_entry(group@, name@, value.deep_view()) == Ok::<
                Listed,
                ParseError,
            >(listed@),
            Err(e) => listed_entry(group@, name@, value.deep_view()) == Err::<Listed, ParseError>(
                e,
            ),
        },
{
    let value = match value {
        Some(value) => value,
        None => {
            return Err(ParseError::MissingValue);
        },
    };
    match parse_u32(value.as_str()) {
        Some(id) => Ok(ListedOption { group: group.to_owned(), name: name.to_owned(), id }),
        None => Err(ParseError::InvalidId),
    }
}

/// Once the options of a group have failed, further options do not change
/// the failure.
proof fn lemma_failed_options_stand(group: Seq<char>, options: Seq<OptionNode>, k: int)
    requires
        0 <= k <= options.len(),
        listed_options(group, options.take(k)) is Err,
    ensures
        listed_options(group, options) == listed_options(group, options.take(k)),
    decreases options.len() - k,
{
    if k == options.len() {
        assert(options.take(k) =~= options);
    } else {
        assert(options.take(k + 1).drop_last() =~= options.take(k));
        lemma_failed_options_stand(group, options, k + 1);
    }
}

/// Once a run of groups has failed, further groups do not change the
/// failure.
proof fn lemma_failed_groups_stand(groups: Seq<OptionGroupNode>, k: int)
    requires
        0 <= k <= groups.len(),
        listed_groups(groups.take(k)) is Err,
    ensures
        listed_groups(groups) == listed_groups(groups.take(k)),
    decreases groups.len() - k,
{
    if k == groups.len() {
        assert(groups.take(k) =~= groups);
    } else {
        assert(groups.take(k + 1).drop_last() =~= groups.take(k));
        lemma_failed_groups_stand(groups, k + 1);
    }
}

fn list_group(group: &OptionGroupElement, out: &mut Vec<ListedOption>) -> (outcome: Result<
    (),
    ParseError,
>)
    ensures
        match outcome {
            Ok(_) => listed_group(group@) matches Ok(listed) && final(out).deep_view() == old(
                out,
            ).deep_view() + listed,
            Err(e) => listed_group(group@) == Err::<Seq<Listed>, ParseError>(e),
        },
{
    let label = match &group.label {
        Some(label) => label,
        None => {
            return Err(ParseError::MissingLabel);
        },
    };
    let ghost base = out.deep_view();
    let ghost all = group.options.deep_view();
    let mut i: usize = 0;
    assert(out.deep_view() =~= base + Seq::<Listed>::empty());
    while i < group.options.len()
        invariant
            i <= group.options.len(),
            all == group.options.deep_view(),
            group.label.deep_view() == Some(label@),
            listed_options(label@, all.take(i as int)) matches Ok(listed) && out.deep_view()
                == base + listed,
        decreases group.options.len() - i,
    {
        proof {
            assert(all.take(i + 1).drop_last() =~= all.take(i as int));
            assert(all.take(i + 1).last() == group.options[i as int]@);
        }
        let option = &group.options[i];
        match list_option(label.as_str(), option.content.as_str(), &option.value) {
            Ok(listed) => {
                let ghost before = out.deep_view();
                out.push(listed);
                assert(out.deep_view() =~= before.push(listed@));
                assert(out.deep_view() =~= base + listed_options(
                    label@,
                    all.take(i + 1),
                )->Ok_0);
            },
            Err(e) => {
                proof {
                    lemma_failed_options_stand(label@, all, i + 1);
                }
                return Err(e);
            },
        }
        i = i + 1;
    }
    assert(all.take(group.options.len() as int) =~= all);
    Ok(())
}

/// Makes the listing of a `<select>`: one entry for each option of each of
/// its groups, in order, each with the label of its group.
///
/// There is no partial listing: a missing element, an element without
/// groups, a group without a label, an option without a value, or a value
/// that is no identifier fails the whole listing, and the first such failure
/// in the order of the page is the one reported.
pub fn list_select(select: &Option<SelectElement>) -> (outcome: Result<
    Vec<ListedOption>,
    ParseError,
>)
    ensures
        listing_view(outcome) == listed_in(select.deep_view()),
{
    let element = match select {
        Some(element) => element,
        None => {
            return Err(ParseError::MissingSelect);
        },
    };
    if element.groups.len() == 0 {
        return Err(ParseError::MissingOptgroup);
    }
    let ghost all = element.groups.deep_view();
    let mut out: Vec<ListedOption> = Vec::new();
    let mut i: usize = 0;
    assert(out.deep_view() =~= Seq::<Listed>::empty());
    while i < element.groups.len()
        invariant
            i <= element.groups.len(),
            all == element.groups.deep_view(),
            listed_in(select.deep_view()) == listed_groups(all),
            listed_groups(all.take(i as int)) matches Ok(listed) && out.deep_view() == listed,
        decreases element.groups.len() - i,
    {
        proof {
            assert(all.take(i + 1).drop_last() =~= all.take(i as int));
            assert(all.take(i + 1).last() == element.groups[i as int]@);
        }
        match list_group(&element.groups[i], &mut out) {
            Ok(_) => {},
            Err(e) => {
                proof {
                    lemma_failed_groups_stand(all, i + 1);
                }
                return Err(e);
            },
        }
        i = i + 1;
    }
    assert(all.take(element.groups.len() as int) =~= all);
    Ok(out)
}

fn gather_options(group: &scraper::ElementRef<'_>) -> (options: Vec<OptionElement>)
    ensures
        options.deep_view() == option_nodes(element_matches(*group, OPTION@)),
{
    let found = select_in_element(group, OPTION);
    let mut options: Vec<OptionElement> = Vec::new();
    let mut i: usize = 0;
    while i < found.len()
        invariant
            i <= found.len(),
            found@ == element_matches(*group, OPTION@),
            options.len() == i,
            forall|k: int|
                0 <= k < i ==> (#[trigger] options[k])@ == option_nodes(found@)[k],
        decreases found.len() - i,
    {
        let content = inner_html_of(&found[i]);
        let value = attribute_of(&found[i], "value");
        options.push(OptionElement { value, content });
        i = i + 1;
    }
    assert(options.deep_view() =~= option_nodes(found@));
    options
}

fn gather_groups(select: &scraper::ElementRef<'_>) -> (groups: Vec<OptionGroupElement>)
    ensures
        groups.deep_view() == group_nodes(element_matches(*select, OPTION_GROUP@)),
{
    let found = select_in_element(select, OPTION_GROUP);
    let mut groups: Vec<OptionGroupElement> = Vec::new();
    let mut i: usize = 0;
    while i < found.len()
        invariant
            i <= found.len(),
            found@ == element_matches(*select, OPTION_GROUP@),
            groups.len() == i,
            forall|k: int| 0 <= k < i ==> (#[trigger] groups[k])@ == group_nodes(found@)[k],
        decreases found.len() - i,
    {
        let label = attribute_of(&found[i], "label");
        let options = gather_options(&found[i]);
        groups.push(OptionGroupElement { label, options });
        i = i + 1;
    }
    assert(groups.deep_view() =~= group_nodes(found@));
    groups
}

/// Finds the first element of a parsed page that matches `select` and
/// gathers the groups and options below it.
fn find_select_in(document: &scraper::Html, select: &str) -> (found: Option<SelectElement>)
    ensures
        found.deep_view() == select_node(*document, select@),
{
    let selects = select_in_document(document, select);
    if selects.len() == 0 {
        None
    } else {
        Some(SelectElement { groups: gather_groups(&selects[0]) })
    }
}

/// Finds the first element of a page that matches `select` and gathers the
/// groups and options below it.
pub fn find_select(body: &str, select: &str) -> (found: Option<SelectElement>)
    ensures
        found.deep_view() == select_node(html_document(body@), select@),
{
    let document = parse_html(body);
    find_select_in(&document, select)
}

/// Extracts the listing under the first element of a page that matches
/// `select`: one entry for each option of each of its groups, in the order
/// of the page, each with the label of its group.
///
/// There is no partial listing: a page without the element, an element
/// without groups, a group without a label, an option without a value, or a
/// value that is no identifier fails the whole extraction.
pub fn read_listing(body: &str, select: &str) -> (outcome: Result<Vec<ListedOption>, ParseError>)
    ensures
        listing_view(outcome) == listing_of(body@, select@),
        document_matches(html_document(body@), select@).len() == 0 ==> outcome == Err::<
            Vec<ListedOption>,
            ParseError,
        >(ParseError::MissingSelect),
{
    let found = find_select(body, select);
    list_select(&found)
}

/// Reads the listing of offices from the page that the service answers
/// with.  The label of a group is the group of its offices.
pub fn read_offices(body: &str) -> (outcome: Result<Vec<NetOfficeBasicInfoModel>, ParseError>)
    ensures
        offices_view(outcome) == offices_of(body@),
{
    let mut listed = match read_listing(body, OFFICES_SELECT) {
        Ok(listed) => listed,
        Err(e) => {
            return Err(e);
        },
    };
    let ghost all = listed.deep_view();
    let mut out: Vec<NetOfficeBasicInfoModel> = Vec::new();
    let mut i: usize = 0;
    let n = listed.len();
    while i < n
        invariant
            i <= n,
            n == listed.len(),
            all == listed.deep_view(),
            out.len() == i,
            forall|k: int| 0 <= k < i ==> (#[trigger] out[k])@ == office_of(all[k]),
        decreases n - i,
    {
        let office = NetOfficeBasicInfoModel {
            name: listed[i].name.clone(),
            group: listed[i].group.clone(),
            id: OfficeId(listed[i].id),
        };
        out.push(office);
        i = i + 1;
    }
    assert(out.deep_view() =~= all.map_values(|l: Listed| office_of(l)));
    Ok(out)
}

/// Reads the listing of procedures from the page that the service answers
/// with.  The label of a group is the category of its procedures.
pub fn read_procedures(body: &str) -> (outcome: Result<Vec<NetProcedureModel>, ParseError>)
    ensures
        procedures_view(outcome) == procedures_of(body@),
{
    let mut listed = match read_listing(body, PROCEDURES_SELECT) {
        Ok(listed) => listed,
        Err(e) => {
            return Err(e);
        },
    };
    let ghost all = listed.deep_view();
    let mut out: Vec<NetProcedureModel> = Vec::new();
    let mut i: usize = 0;
    let n = listed.len();
    while i < n
        invariant
            i <= n,
            n == listed.len(),
            all == listed.deep_view(),
            out.len() == i,
            forall|k: int| 0 <= k < i ==> (#[trigger] out[k])@ == procedure_of(all[k]),
        decreases n - i,
    {
        let procedure = NetProcedureModel {
            procedure_category: listed[i].group.clone(),
            procedure_name: listed[i].name.clone(),
            procedure_id: ProcedureId(listed[i].id),
        };
        out.push(procedure);
        i = i + 1;
    }
    assert(out.deep_view() =~= all.map_values(|l: Listed| procedure_of(l)));
    Ok(out)
}

/// Law: a page without the expected `<select>` fails with a structural
/// error; it never reads as an empty listing.
pub proof fn lemma_missing_select_is_an_error(body: Seq<char>, select: Seq<char>)
    requires
        document_matches(html_document(body), select).len() == 0,
    ensures
        listing_of(body, select) == Err::<Seq<Listed>, ParseError>(ParseError::MissingSelect),
{
}

} // verus!
