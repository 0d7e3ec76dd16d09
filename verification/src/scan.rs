//! Reading the declaration files of a repository: which files count, which
//! variable keys a file declares, and what a whole tree declares.

use vstd::prelude::*;
use crate::report::{named, UnlistedVariables, UnlistedVariablesView};
use crate::variable;
use crate::workspace::WorkspaceVariables;

verus! {

/// `hcl::Error`, carried through as an opaque value.
#[verifier::external_type_specification]
#[verifier::external_body]
pub struct ExHclError(hcl::Error);

/// Whether an entry of a directory is hidden: its name starts with a dot.
pub open spec fn hidden(name: Seq<char>) -> bool {
    name.len() > 0 && name[0] == '.'
}

/// Whether a file name marks a declaration file: it ends in `.tf`, with
/// something before the dot.
pub open spec fn declaration_file(name: Seq<char>) -> bool {
    name.len() > 3 && name.subrange(name.len() - 3, name.len() as int) == seq!['.', 't', 'f']
}

/// Tells whether an entry of this name is hidden. The walk leaves hidden
/// entries out, and with a hidden directory all that lies below it.
pub fn is_hidden(name: &str) -> (skip: bool)
    ensures
        skip == hidden(name@),
{
    name.unicode_len() > 0 && name.get_char(0) == '.'
}

/// Tells whether a file of this name is a declaration file.
pub fn is_tf(name: &str) -> (selected: bool)
    ensures
        selected == declaration_file(name@),
{
    let length: usize = name.unicode_len();
    if length <= 3 {
        return false;
    }
    let selected = name.get_char(length - 3) == '.' && name.get_char(length - 2) == 't'
        && name.get_char(length - 1) == 'f';
    proof {
        let end = name@.subrange(length - 3, length as int);
        assert(end[0] == name@[length - 3]);
        assert(end[1] == name@[length - 2]);
        assert(end[2] == name@[length - 1]);
        if selected {
            assert(end =~= seq!['.', 't', 'f']);
        }
    }
    selected
}

/// What a declaration file holds under one name, as far as the scan reads
/// it: the kind of value, and for an object its keys in the order of the
/// file.
#[derive(Debug, PartialEq, Eq)]
pub enum Value {
    Null,
    Bool,
    Number,
    String,
    Array,
    Object(Vec<String>),
}

/// The mathematical value of a `Value`.
pub enum ValueView {
    Null,
    Bool,
    Number,
    String,
    Array,
    Object(Seq<Seq<char>>),
}

impl View for Value {
    type V = ValueView;

    open spec fn view(&self) -> ValueView {
        match self {
            Value::Null => ValueView::Null,
            Value::Bool => ValueView::Bool,
            Value::Number => ValueView::Number,
            Value::String => ValueView::String,
            Value::Array => ValueView::Array,
            Value::Object(keys) => ValueView::Object(keys.deep_view()),
        }
    }
}

impl DeepView for Value {
    type V = ValueView;

    open spec fn deep_view(&self) -> ValueView {
        self@
    }
}

impl Clone for Value {
    fn clone(&self) -> (copy: Self)
        ensures
            copy@ == self@,
    {
        match self {
            Value::Null => Value::Null,
            Value::Bool => Value::Bool,
            Value::Number => Value::Number,
            Value::String => Value::String,
            Value::Array => Value::Array,
            Value::Object(keys) => Value::Object(clone_keys(keys)),
        }
    }
}

/// Copies a list of keys, one by one and in order.
pub fn clone_keys(keys: &Vec<String>) -> (copy: Vec<String>)
    ensures
        copy.deep_view() == keys.deep_view(),
{
    let mut copy: Vec<String> = Vec::new();
    let mut i: usize = 0;
    while i < keys.len()
        invariant
            i <= keys.len(),
            copy.len() == i,
            forall|j: int| 0 <= j < i ==> copy[j]@ == keys[j]@,
        decreases keys.len() - i,
    {
        copy.push(keys[i].clone());
        i += 1;
    }
    copy
}

/// One top-level name of a declaration file with what stands under it.
#[derive(Debug, PartialEq, Eq)]
pub struct Entry {
    pub key: String,
    pub value: Value,
}

/// The mathematical value of an `Entry`.
pub struct EntryView {
    pub key: Seq<char>,
    pub value: ValueView,
}

impl View for Entry {
    type V = EntryView;

    open spec fn view(&self) -> EntryView {
        EntryView { key: self.key@, value: self.value@ }
    }
}

impl DeepView for Entry {
    type V = EntryView;

    open spec fn deep_view(&self) -> EntryView {
        self@
    }
}

/// A declaration file after parsing: its top-level names in the order of the
/// file, blocks of one name merged.
#[derive(Debug, PartialEq, Eq)]
pub struct Document {
    pub entries: Vec<Entry>,
}

impl View for Document {
    type V = Seq<EntryView>;

    open spec fn view(&self) -> Seq<EntryView> {
        self.entries.deep_view()
    }
}

/// What the `hcl` crate makes of a text: the document that it parses to, or
/// its error where the text is no HCL.
pub uninterp spec fn parsed_document(text: Seq<char>) -> Result<Seq<EntryView>, hcl::Error>;

/// Parses a text with `hcl::from_str`, as a map from names to values.
///
/// Trusted: the outcome depends on the text alone. Of each value the
/// document keeps the kind, and of an object the keys.
#[verifier::external_body]
fn parse_document(text: &str) -> (parsed: Result<Document, hcl::Error>)
    ensures
        match parsed {
            Ok(document) => parsed_document(text@) == Ok::<Seq<EntryView>, hcl::Error>(document@),
            Err(error) => parsed_document(text@) == Err::<Seq<EntryView>, hcl::Error>(error),
        },
{
    let document: hcl::Map<String, hcl::Value> = hcl::from_str(text)?;
    let mut entries = Vec::new();
    for (key, value) in document {
        let value = match value {
            hcl::Value::Null => Value::Null,
            hcl::Value::Bool(_) => Value::Bool,
            hcl::Value::Number(_) => Value::Number,
            hcl::Value::String(_) => Value::String,
            hcl::Value::Array(_) => Value::Array,
            hcl::Value::Object(object) => Value::Object(object.into_keys().collect()),
        };
        entries.push(Entry { key, value });
    }
    Ok(Document { entries })
}

/// The name under which a declaration file holds its variables.
pub open spec fn variable_key() -> Seq<char> {
    "variable"@
}

/// What a document holds under a name: the value of the first entry of that
/// name.
pub open spec fn lookup(document: Seq<EntryView>, key: Seq<char>) -> Option<ValueView>
    decreases document.len(),
{
    if document.len() == 0 {
        None
    } else if document[0].key == key {
        Some(document[0].value)
    } else {
        lookup(document.drop_first(), key)
    }
}

impl Document {
    /// Looks a name up in the document.
    pub fn get(&self, key: &String) -> (found: Option<&Value>)
        ensures
            match found {
                Some(value) => lookup(self@, key@) == Some(value@),
                None => lookup(self@, key@) is None,
            },
    {
        let mut i: usize = 0;
        assert(self@.skip(0) =~= self@);
        while i < self.entries.len()
            invariant
                i <= self.entries.len(),
                lookup(self@, key@) == lookup(self@.skip(i as int), key@),
            decreases self.entries.len() - i,
        {
            let ghost rest = self@.skip(i as int);
            assert(rest[0] == self.entries[i as int]@);
            assert(rest.drop_first() =~= self@.skip(i + 1));
            if self.entries[i].key == *key {
                return Some(&self.entries[i].value);
            }
            i += 1;
        }
        None
    }
}

/// The first shape of a declaration file: one block named `variable` that
/// holds the declarations directly. The block may be missing.
#[derive(Debug, PartialEq, Eq)]
pub struct TestVariable {
    pub variable: Option<Value>,
}

/// The second shape of a declaration file: the blocks named `variable`, as a
/// map from the names of the declarations.
#[derive(Debug, PartialEq, Eq)]
pub struct Variable {
    pub variable: Value,
}

impl Clone for TestVariable {
    fn clone(&self) -> (copy: Self)
        ensures
            copy.variable.deep_view() == self.variable.deep_view(),
    {
        match &self.variable {
            Some(value) => TestVariable { variable: Some(value.clone()) },
            None => TestVariable { variable: None },
        }
    }
}

impl Clone for Variable {
    fn clone(&self) -> (copy: Self)
        ensures
            copy.variable@ == self.variable@,
    {
        Variable { variable: self.variable.clone() }
    }
}

/// What a document holds in the first shape: what stands under `variable`,
/// where something stands there that is not null.
pub open spec fn first_shape(document: Seq<EntryView>) -> Option<ValueView> {
    match lookup(document, variable_key()) {
        Some(ValueView::Null) => None,
        found => found,
    }
}

/// What a document holds in the second shape: what stands under `variable`.
/// A document without that name does not have the shape.
pub open spec fn second_shape(document: Seq<EntryView>) -> Option<ValueView> {
    lookup(document, variable_key())
}

/// The keys that a file declares, from what it holds in the two shapes: the
/// keys of the map in the first shape; without a map there, the keys of the
/// map in the second shape; without a map in either, none.
pub open spec fn declared_keys(
    first: Option<ValueView>,
    second: Option<ValueView>,
) -> Option<Seq<Seq<char>>> {
    match first {
        Some(ValueView::Object(keys)) => Some(keys),
        _ => match second {
            Some(ValueView::Object(keys)) => Some(keys),
            _ => None,
        },
    }
}

/// The keys that a document declares.
pub open spec fn document_keys(document: Seq<EntryView>) -> Option<Seq<Seq<char>>> {
    declared_keys(first_shape(document), second_shape(document))
}

/// Why a file declares nothing.
#[derive(Debug)]
pub enum Rejected {
    /// The file could not be read.
    Unreadable,
    /// The text is no HCL.
    Syntax(hcl::Error),
    /// The text is HCL, and has neither of the two shapes.
    Shape,
}

/// The keys that a file of this text declares, or why it declares nothing.
pub open spec fn text_keys(text: Seq<char>) -> Result<Seq<Seq<char>>, Rejected> {
    match parsed_document(text) {
        Ok(document) => match document_keys(document) {
            Some(keys) => Ok(keys),
            None => Err(Rejected::Shape),
        },
        Err(error) => Err(Rejected::Syntax(error)),
    }
}

impl TestVariable {
    /// Reads a document in the first shape.
    pub fn read(document: &Document) -> (shape: TestVariable)
        ensures
            shape.variable.deep_view() == first_shape(document@),
    {
        let name = String::from_str("variable");
        match document.get(&name) {
            None => TestVariable { variable: None },
            Some(Value::Null) => TestVariable { variable: None },
            Some(value) => TestVariable { variable: Some(value.clone()) },
        }
    }
}

impl Variable {
    /// Reads a document in the second shape, where it has that shape.
    pub fn read(document: &Document) -> (shape: Option<Variable>)
        ensures
            match shape {
                Some(shape) => second_shape(document@) == Some(shape.variable@),
                None => second_shape(document@) is None,
            },
    {
        let name = String::from_str("variable");
        match document.get(&name) {
            None => None,
            Some(value) => Some(Variable { variable: value.clone() }),
        }
    }
}

/// Gives the keys that a file declares, from what was read of it in the two
/// shapes. The first shape goes before the second.
pub fn declared(first: TestVariable, second: Option<Variable>) -> (keys: Option<Vec<String>>)
    ensures
        keys.deep_view() == declared_keys(
            first.variable.deep_view(),
            match second {
                Some(shape) => Some(shape.variable@),
                None => None,
            },
        ),
{
    match first.variable {
        Some(Value::Object(keys)) => Some(keys),
        _ => match second {
            Some(Variable { variable: Value::Object(keys) }) => Some(keys),
            _ => None,
        },
    }
}

/// Gives the keys that a document declares.
pub fn keys_of(document: &Document) -> (keys: Option<Vec<String>>)
    ensures
        keys.deep_view() == document_keys(document@),
{
    declared(TestVariable::read(document), Variable::read(document))
}

/// Parses the text of a declaration file and gives the keys that it
/// declares. A text that is no HCL, or that has neither shape, is rejected:
/// the scan goes on without it.
pub fn declarations(text: &str) -> (read: Result<Vec<String>, Rejected>)
    ensures
        match read {
            Ok(keys) => text_keys(text@) == Ok::<Seq<Seq<char>>, Rejected>(keys.deep_view()),
            Err(reason) => text_keys(text@) == Err::<Seq<Seq<char>>, Rejected>(reason),
        },
{
    match parse_document(text) {
        Err(error) => Err(Rejected::Syntax(error)),
        Ok(document) => match keys_of(&document) {
            Some(keys) => Ok(keys),
            None => Err(Rejected::Shape),
        },
    }
}

/// The variable keys that the declaration files of one workspace declare.
/// No key is held twice.
#[derive(Debug)]
pub struct LocalDeclarationSet {
    keys: Vec<String>,
}

impl View for LocalDeclarationSet {
    type V = Set<Seq<char>>;

    closed spec fn view(&self) -> Set<Seq<char>> {
        self.keys.deep_view().to_set()
    }
}

impl LocalDeclarationSet {
    /// No key is held twice.
    #[verifier::type_invariant]
    spec fn distinct(self) -> bool {
        self.keys.deep_view().no_duplicates()
    }

    /// The set without keys.
    pub fn new() -> (set: LocalDeclarationSet)
        ensures
            set@ == Set::<Seq<char>>::empty(),
    {
        let keys: Vec<String> = Vec::new();
        assert(keys.deep_view() =~= Seq::empty());
        LocalDeclarationSet { keys }
    }

    /// Tells whether the set holds the key.
    pub fn contains(&self, key: &String) -> (held: bool)
        ensures
            held == self@.contains(key@),
    {
        let mut i: usize = 0;
        while i < self.keys.len()
            invariant
                i <= self.keys.len(),
                forall|j: int| 0 <= j < i ==> self.keys.deep_view()[j] != key@,
            decreases self.keys.len() - i,
        {
            if self.keys[i] == *key {
                assert(self.keys.deep_view()[i as int] == key@);
                return true;
            }
            i += 1;
        }
        false
    }

    /// The set with the key put in; a key that the set holds stays once.
    pub fn insert(self, key: String) -> (set: LocalDeclarationSet)
        ensures
            set@ == self@.insert(key@),
    {
        proof {
            use_type_invariant(&self);
        }
        if self.contains(&key) {
            assert(self@.insert(key@) =~= self@);
            self
        } else {
            let ghost before = self.keys.deep_view();
            let mut keys = self.keys;
            keys.push(key);
            proof {
                assert(keys.deep_view() =~= before.push(key@));
                before.lemma_push_to_set_commute(key@);
            }
            LocalDeclarationSet { keys }
        }
    }

    /// The set with each key of the list put in.
    pub fn extend(self, keys: &Vec<String>) -> (set: LocalDeclarationSet)
        ensures
            set@ == self@.union(keys.deep_view().to_set()),
    {
        let mut set = self;
        let mut i: usize = 0;
        assert(self@.union(Set::empty()) =~= self@);
        while i < keys.len()
            invariant
                i <= keys.len(),
                set@ == self@.union(keys.deep_view().take(i as int).to_set()),
            decreases keys.len() - i,
        {
            set = set.insert(keys[i].clone());
            proof {
                let seen = keys.deep_view().take(i as int);
                assert(keys.deep_view().take(i + 1) =~= seen.push(keys[i as int]@));
                seen.lemma_push_to_set_commute(keys[i as int]@);
            }
            i += 1;
        }
        assert(keys.deep_view().take(i as int) =~= keys.deep_view());
        set
    }

    /// The number of keys in the set.
    pub fn len(&self) -> (count: usize)
        ensures
            count == self@.len(),
    {
        proof {
            use_type_invariant(self);
            self.keys.deep_view().unique_seq_to_set();
        }
        self.keys.len()
    }

    /// The keys of the set, each once.
    pub fn keys(&self) -> (keys: &Vec<String>)
        ensures
            keys.deep_view().to_set() == self@,
            keys.deep_view().no_duplicates(),
    {
        proof {
            use_type_invariant(self);
        }
        &self.keys
    }
}

/// A declaration file as it was read: where it lies, and its text, if the
/// file could be read.
#[derive(Debug, PartialEq, Eq)]
pub struct SourceFile {
    pub path: String,
    pub contents: Option<String>,
}

/// The mathematical value of a `SourceFile`.
pub struct SourceFileView {
    pub path: Seq<char>,
    pub contents: Option<Seq<char>>,
}

impl View for SourceFile {
    type V = SourceFileView;

    open spec fn view(&self) -> SourceFileView {
        SourceFileView { path: self.path@, contents: self.contents.deep_view() }
    }
}

impl DeepView for SourceFile {
    type V = SourceFileView;

    open spec fn deep_view(&self) -> SourceFileView {
        self@
    }
}

/// A file that the scan went on without.
#[derive(Debug)]
pub struct Warning {
    pub path: String,
    pub reason: Rejected,
}

/// What the scan of a tree gives: the keys that its files declare, and a
/// warning for each file that declares nothing.
#[derive(Debug)]
pub struct Scan {
    pub declared: LocalDeclarationSet,
    pub warnings: Vec<Warning>,
}

/// The mathematical value of a `Warning`.
pub struct WarningView {
    pub path: Seq<char>,
    pub reason: Rejected,
}

impl View for Warning {
    type V = WarningView;

    open spec fn view(&self) -> WarningView {
        WarningView { path: self.path@, reason: self.reason }
    }
}

impl DeepView for Warning {
    type V = WarningView;

    open spec fn deep_view(&self) -> WarningView {
        self@
    }
}

/// The keys that a file declares, or why it declares nothing.
pub open spec fn file_keys(file: SourceFileView) -> Result<Seq<Seq<char>>, Rejected> {
    match file.contents {
        Some(text) => text_keys(text),
        None => Err(Rejected::Unreadable),
    }
}

/// The file declares the key.
pub open spec fn declares(file: SourceFileView, key: Seq<char>) -> bool {
    file_keys(file) matches Ok(keys) && keys.contains(key)
}

/// The keys that some file of the list declares.
pub open spec fn declared_by(files: Seq<SourceFileView>) -> Set<Seq<char>> {
    Set::new(
        |key: Seq<char>| exists|i: int| 0 <= i < files.len() && declares(#[trigger] files[i], key),
    )
}

/// The test for a file that declares nothing: it could not be read, its
/// text is no HCL, or the text has neither shape.
pub open spec fn rejects() -> spec_fn(SourceFileView) -> bool {
    |file: SourceFileView| file_keys(file) is Err
}

/// The test for a file that declares keys, be it none.
pub open spec fn accepts() -> spec_fn(SourceFileView) -> bool {
    |file: SourceFileView| file_keys(file) is Ok
}

/// The warning that a file gives that declares nothing.
pub open spec fn warning_of(file: SourceFileView) -> WarningView {
    WarningView { path: file.path, reason: file_keys(file)->Err_0 }
}

/// The warnings that a list of files gives: one for each file that declares
/// nothing, in the order of the list.
pub open spec fn warnings_of(files: Seq<SourceFileView>) -> Seq<WarningView> {
    files.filter(rejects()).map_values(|file: SourceFileView| warning_of(file))
}

/// The keys that a file adds to what is declared.
pub open spec fn declared_in(file: SourceFileView) -> Set<Seq<char>> {
    match file_keys(file) {
        Ok(keys) => keys.to_set(),
        Err(_) => Set::empty(),
    }
}

/// One more file declares what the files before it declare, and its own keys.
proof fn declared_by_one_more(files: Seq<SourceFileView>, file: SourceFileView)
    ensures
        declared_by(files.push(file)) == declared_by(files).union(declared_in(file)),
{
    let more = files.push(file);
    assert forall|key: Seq<char>| declared_by(more).contains(key) <==> declared_by(
        files,
    ).contains(key) || declared_in(file).contains(key) by {
        if declared_by(more).contains(key) {
            let j = choose|j: int| 0 <= j < more.len() && declares(more[j], key);
            if j < files.len() {
                assert(declares(files[j], key));
            }
        }
        if declared_by(files).contains(key) {
            let j = choose|j: int| 0 <= j < files.len() && declares(files[j], key);
            assert(declares(more[j], key));
        }
        if declared_in(file).contains(key) {
            assert(declares(more[files.len() as int], key));
        }
    }
    assert(declared_by(more) =~= declared_by(files).union(declared_in(file)));
}

/// Gives the keys that a file declares, or why it declares nothing.
pub fn read(file: &SourceFile) -> (keys: Result<Vec<String>, Rejected>)
    ensures
        match keys {
            Ok(keys) => file_keys(file@) == Ok::<Seq<Seq<char>>, Rejected>(keys.deep_view()),
            Err(reason) => file_keys(file@) == Err::<Seq<Seq<char>>, Rejected>(reason),
        },
{
    match &file.contents {
        Some(text) => declarations(text.as_str()),
        None => Err(Rejected::Unreadable),
    }
}

/// Scans the declaration files of a tree. A file that could not be read, is
/// no HCL, or has neither shape, gives a warning and nothing else: the scan
/// goes through every file.
pub fn scan(files: &Vec<SourceFile>) -> (found: Scan)
    ensures
        found.declared@ == declared_by(files.deep_view()),
        found.warnings.deep_view() == warnings_of(files.deep_view()),
{
    let mut declared = LocalDeclarationSet::new();
    let mut warnings: Vec<Warning> = Vec::new();
    let mut i: usize = 0;
    proof {
        reveal(Seq::filter);
        assert(declared_by(Seq::empty()) =~= Set::empty());
    }
    while i < files.len()
        invariant
            i <= files.len(),
            declared@ == declared_by(files.deep_view().take(i as int)),
            warnings.deep_view() == warnings_of(files.deep_view().take(i as int)),
        decreases files.len() - i,
    {
        let ghost warned = warnings.deep_view();
        let file = &files[i];
        proof {
            reveal(Seq::filter);
            let seen = files.deep_view().take(i as int);
            let next = files.deep_view().take(i + 1);
            assert(next.drop_last() =~= seen);
            assert(next =~= seen.push(file@));
            declared_by_one_more(seen, file@);
        }
        match read(file) {
            Ok(keys) => {
                declared = declared.extend(&keys);
            },
            Err(reason) => {
                warnings.push(Warning { path: file.path.clone(), reason });
                assert(warnings.deep_view() =~= warned.push(warning_of(file@)));
                assert(declared@.union(Set::empty()) =~= declared@);
            },
        }
        i += 1;
    }
    assert(files.deep_view().take(i as int) =~= files.deep_view());
    Scan { declared, warnings }
}

/// The test for a variable that no declaration file lists.
pub open spec fn is_unlisted(declared: Set<Seq<char>>) -> spec_fn(variable::VariableView) -> bool {
    |item: variable::VariableView| !declared.contains(item.key)
}

/// The variables whose key is not declared, in the order in which they came,
/// as the report names them.
pub open spec fn unlisted(
    variables: Seq<variable::VariableView>,
    declared: Set<Seq<char>>,
) -> Seq<crate::report::VariableView> {
    variables.filter(is_unlisted(declared)).map_values(
        |item: variable::VariableView| named(item),
    )
}

/// Finds the variables of a workspace that the declared keys do not list.
pub fn unlisted_variables(declared: &LocalDeclarationSet, entry: &WorkspaceVariables) -> (found:
    UnlistedVariables)
    ensures
        found@ == (UnlistedVariablesView {
            workspace: entry@,
            unlisted_variables: unlisted(entry@.variables, declared@),
        }),
{
    let mut names: Vec<crate::report::Variable> = Vec::new();
    let mut i: usize = 0;
    proof {
        reveal(Seq::filter);
        assert(entry@.variables.take(0) =~= Seq::empty());
    }
    while i < entry.variables.len()
        invariant
            i <= entry.variables.len(),
            entry@.variables == entry.variables.deep_view(),
            names.deep_view() == unlisted(entry@.variables.take(i as int), declared@),
        decreases entry.variables.len() - i,
    {
        let ghost seen = entry@.variables.take(i as int);
        let ghost next = entry@.variables.take(i + 1);
        let item = &entry.variables[i];
        proof {
            reveal(Seq::filter);
            assert(next.drop_last() =~= seen);
        }
        if !declared.contains(&item.attributes.key) {
            names.push(crate::report::Variable::of(item));
            proof {
                assert(next.filter(is_unlisted(declared@)) == seen.filter(
                    is_unlisted(declared@),
                ).push(item@));
                assert(unlisted(next, declared@) =~= unlisted(seen, declared@).push(named(item@)));
            }
        }
        i += 1;
    }
    assert(entry@.variables.take(i as int) =~= entry@.variables);
    UnlistedVariables { workspace: entry.clone(), unlisted_variables: names }
}

/// Scans the declaration files of a workspace's repository and finds the
/// variables of the workspace that none of them lists.
pub fn reconcile(files: &Vec<SourceFile>, entry: &WorkspaceVariables) -> (found: (
    Scan,
    UnlistedVariables,
))
    ensures
        found.0.declared@ == declared_by(files.deep_view()),
        found.0.warnings.deep_view() == warnings_of(files.deep_view()),
        found.1@ == (UnlistedVariablesView {
            workspace: entry@,
            unlisted_variables: unlisted(entry@.variables, declared_by(files.deep_view())),
        }),
{
    let scanned = scan(files);
    let unlisted = unlisted_variables(&scanned.declared, entry);
    (scanned, unlisted)
}

/// The places of the variables whose key is not declared, in rising order.
pub open spec fn unlisted_places(
    variables: Seq<variable::VariableView>,
    declared: Set<Seq<char>>,
) -> Seq<int>
    decreases variables.len(),
{
    if variables.len() == 0 {
        Seq::empty()
    } else {
        let front = unlisted_places(variables.drop_last(), declared);
        if declared.contains(variables.last().key) {
            front
        } else {
            front.push(variables.len() - 1)
        }
    }
}

/// What is found unlisted is the variables of the cloud without those whose
/// key is declared: each one found is a variable whose key is not declared,
/// each variable whose key is not declared is found, once, and they are found
/// in the order in which they came.
pub proof fn unlisted_is_the_difference(
    variables: Seq<variable::VariableView>,
    declared: Set<Seq<char>>,
)
    ensures
        ({
            let places = unlisted_places(variables, declared);
            let found = unlisted(variables, declared);
            &&& found.len() == places.len()
            &&& forall|j: int|
                0 <= j < places.len() ==> 0 <= #[trigger] places[j] < variables.len()
                    && !declared.contains(variables[places[j]].key) && found[j] == named(
                    variables[places[j]],
                )
            &&& forall|a: int, b: int|
                0 <= a < b < places.len() ==> #[trigger] places[a] < #[trigger] places[b]
            &&& forall|i: int|
                0 <= i < variables.len() && !declared.contains((#[trigger] variables[i]).key)
                    ==> places.contains(i)
        }),
    decreases variables.len(),
{
    reveal(Seq::filter);
    if variables.len() > 0 {
        let front = variables.drop_last();
        unlisted_is_the_difference(front, declared);
        let places = unlisted_places(variables, declared);
        let before = unlisted_places(front, declared);
        let found = unlisted(variables, declared);
        assert forall|j: int| 0 <= j < before.len() implies variables[before[j]]
            == front[before[j]] by {}
        if declared.contains(variables.last().key) {
            assert(found =~= unlisted(front, declared));
            assert forall|i: int|
                0 <= i < variables.len() && !declared.contains(
                    (#[trigger] variables[i]).key,
                ) implies places.contains(i) by {
                assert(front[i] == variables[i]);
            }
        } else {
            assert(found =~= unlisted(front, declared).push(named(variables.last())));
            assert forall|j: int| 0 <= j < places.len() implies 0 <= #[trigger] places[j]
                < variables.len() && !declared.contains(variables[places[j]].key) && found[j]
                == named(variables[places[j]]) by {
                if j < before.len() {
                    assert(places[j] == before[j]);
                }
            }
            assert forall|a: int, b: int| 0 <= a < b < places.len() implies #[trigger] places[a]
                < #[trigger] places[b] by {
                assert(places[a] == before[a]);
                if b < before.len() {
                    assert(places[b] == before[b]);
                }
            }
            assert forall|i: int|
                0 <= i < variables.len() && !declared.contains(
                    (#[trigger] variables[i]).key,
                ) implies places.contains(i) by {
                if i < front.len() {
                    assert(front[i] == variables[i]);
                    let j = choose|j: int| 0 <= j < before.len() && before[j] == i;
                    assert(places[j] == i);
                } else {
                    assert(places[places.len() - 1] == i);
                }
            }
        }
    }
}

/// Where the cloud holds no key twice, no key is found unlisted twice.
pub proof fn unlisted_keys_come_once(
    variables: Seq<variable::VariableView>,
    declared: Set<Seq<char>>,
    a: int,
    b: int,
)
    requires
        forall|i: int, j: int|
            0 <= i < j < variables.len() ==> (#[trigger] variables[i]).key
                != (#[trigger] variables[j]).key,
        0 <= a < b < unlisted(variables, declared).len(),
    ensures
        unlisted(variables, declared)[a].key != unlisted(variables, declared)[b].key,
{
    unlisted_is_the_difference(variables, declared);
    let places = unlisted_places(variables, declared);
    assert(places[a] < places[b]);
    assert(variables[places[a]].key != variables[places[b]].key);
}

/// Every key that is found unlisted is a key of the cloud that is not
/// declared, and every key of the cloud that is not declared is found.
pub proof fn unlisted_keys_are_the_undeclared(
    variables: Seq<variable::VariableView>,
    declared: Set<Seq<char>>,
    key: Seq<char>,
)
    ensures
        (exists|j: int|
            0 <= j < unlisted(variables, declared).len() && (#[trigger] unlisted(
                variables,
                declared,
            )[j]).key == key) <==> !declared.contains(key) && exists|i: int|
            0 <= i < variables.len() && (#[trigger] variables[i]).key == key,
{
    unlisted_is_the_difference(variables, declared);
    let places = unlisted_places(variables, declared);
    let found = unlisted(variables, declared);
    if exists|j: int| 0 <= j < found.len() && (#[trigger] found[j]).key == key {
        let j = choose|j: int| 0 <= j < found.len() && (#[trigger] found[j]).key == key;
        assert(variables[places[j]].key == key);
    }
    if !declared.contains(key) && exists|i: int|
        0 <= i < variables.len() && (#[trigger] variables[i]).key == key {
        let i = choose|i: int| 0 <= i < variables.len() && (#[trigger] variables[i]).key == key;
        assert(places.contains(i));
        let j = choose|j: int| 0 <= j < places.len() && places[j] == i;
        assert(found[j].key == key);
    }
}

/// The files that declare nothing add nothing: what a list of files
/// declares is what those of its files declare that were not rejected.
/// Each file is either rejected, with one warning, or read.
pub proof fn rejected_files_declare_nothing(files: Seq<SourceFileView>)
    ensures
        declared_by(files) == declared_by(files.filter(accepts())),
        warnings_of(files).len() + files.filter(accepts()).len() == files.len(),
    decreases files.len(),
{
    reveal(Seq::filter);
    if files.len() > 0 {
        let front = files.drop_last();
        let last = files.last();
        rejected_files_declare_nothing(front);
        assert(files =~= front.push(last));
        declared_by_one_more(front, last);
        if file_keys(last) is Ok {
            declared_by_one_more(front.filter(accepts()), last);
        } else {
            assert(declared_by(front).union(Set::empty()) =~= declared_by(front));
        }
    }
}

} // verus!
