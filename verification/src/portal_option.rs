//! The option and filter payload of a file-chooser request.
//!
//! These are the plain values a desktop portal hands the widget when it asks
//! for a file: name filters (glob patterns and MIME types), free-form
//! choices, and the open-file / save-file option blocks. A path travels the
//! portal wire as nul-terminated bytes; [`FilePath`] checks that framing at
//! the boundary and rejects malformed payloads instead of carrying them in.

use vstd::prelude::*;
use vstd::string::*;

verus! {

/// How one filter rule matches file names.
#[derive(Debug, Clone, Copy, PartialEq, Eq, Structural)]
pub enum FilterType {
    /// A glob pattern over the file name.
    GlobPattern,
    /// A MIME type the file's name must sniff to.
    MimeType,
}

impl FilterType {
    /// Whether it is a MIME type filter.
    pub fn is_mimetype(&self) -> (r: bool)
        ensures
            r == (*self is MimeType),
    {
        matches!(self, FilterType::MimeType)
    }

    /// Whether it is a glob pattern filter.
    pub fn is_pattern(&self) -> (r: bool)
        ensures
            r == (*self is GlobPattern),
    {
        matches!(self, FilterType::GlobPattern)
    }
}

/// The mathematical value of a file filter.
#[verifier::ext_equal]
pub struct FileFilterV {
    pub title: Seq<char>,
    pub rules: Seq<(FilterType, Seq<char>)>,
}

/// A named file filter: a user-visible title and its matching rules.
#[derive(Debug, Clone, PartialEq, Eq)]
pub struct FileFilter(pub String, pub Vec<(FilterType, String)>);

impl View for FileFilter {
    type V = FileFilterV;

    open spec fn view(&self) -> FileFilterV {
        FileFilterV {
            title: self.0@,
            rules: self.1@.map_values(|p: (FilterType, String)| (p.0, p.1@)),
        }
    }
}

/// The texts of a list of borrowed strings.
pub open spec fn str_views(s: Seq<&str>) -> Seq<Seq<char>> {
    s.map_values(|x: &str| x@)
}

impl FileFilter {
    /// The filter's user-visible title.
    pub fn title(&self) -> (r: &str)
        ensures
            r@ == self@.title,
    {
        self.0.as_str()
    }

    /// All rules, in the order they were added.
    pub fn get_filters(&self) -> (r: &[(FilterType, String)])
        ensures
            r@ == self.1@,
    {
        self.1.as_slice()
    }

    /// A new filter with the given user-visible label and no rules yet.
    pub fn new(label: &str) -> (r: Self)
        ensures
            r@.title == label@,
            r@.rules.len() == 0,
    {
        let r = FileFilter(label.to_owned(), Vec::new());
        proof {
            assert(r@.rules =~= Seq::<(FilterType, Seq<char>)>::empty());
        }
        r
    }

    /// This filter with a MIME type rule appended.
    #[must_use]
    pub fn mimetype(self, mimetype: &str) -> (r: Self)
        ensures
            r@.title == self@.title,
            r@.rules == self@.rules.push((FilterType::MimeType, mimetype@)),
    {
        let ghost pre = self@.rules;
        let mut rules = self.1;
        rules.push((FilterType::MimeType, mimetype.to_owned()));
        let r = FileFilter(self.0, rules);
        proof {
            assert(r@.rules =~= pre.push((FilterType::MimeType, mimetype@)));
        }
        r
    }

    /// This filter with a glob pattern rule appended.
    #[must_use]
    pub fn glob(self, pattern: &str) -> (r: Self)
        ensures
            r@.title == self@.title,
            r@.rules == self@.rules.push((FilterType::GlobPattern, pattern@)),
    {
        let ghost pre = self@.rules;
        let mut rules = self.1;
        rules.push((FilterType::GlobPattern, pattern.to_owned()));
        let r = FileFilter(self.0, rules);
        proof {
            assert(r@.rules =~= pre.push((FilterType::GlobPattern, pattern@)));
        }
        r
    }

    /// All rules; same as [`Self::get_filters`], for callers holding the
    /// vector.
    pub fn filters(&self) -> (r: &Vec<(FilterType, String)>)
        ensures
            r@ == self.1@,
    {
        &self.1
    }

    /// The label of the filter.
    pub fn label(&self) -> (r: &str)
        ensures
            r@ == self@.title,
    {
        self.0.as_str()
    }

    /// The texts of the MIME type rules, in order.
    pub fn mimetype_filters(&self) -> (r: Vec<&str>)
        ensures
            str_views(r@) == self@.rules.filter(|p: (FilterType, Seq<char>)| p.0 is MimeType)
                .map_values(|p: (FilterType, Seq<char>)| p.1),
    {
        let n = self.1.len();
        let mut out: Vec<&str> = Vec::new();
        let mut i: usize = 0;
        while i < n
            invariant
                i <= n,
                n == self.1@.len(),
                str_views(out@) =~= self@.rules.take(i as int).filter(
                    |p: (FilterType, Seq<char>)| p.0 is MimeType,
                ).map_values(|p: (FilterType, Seq<char>)| p.1),
            decreases n - i,
        {
            let keep = self.1[i].0.is_mimetype();
            if keep {
                out.push(self.1[i].1.as_str());
            }
            proof {
                lemma_rule_filter_step(self@.rules, i as int, true);
            }
            i = i + 1;
        }
        proof {
            assert(self@.rules.take(n as int) =~= self@.rules);
        }
        out
    }

    /// The texts of the glob pattern rules, in order.
    pub fn pattern_filters(&self) -> (r: Vec<&str>)
        ensures
            str_views(r@) == self@.rules.filter(|p: (FilterType, Seq<char>)| p.0 is GlobPattern)
                .map_values(|p: (FilterType, Seq<char>)| p.1),
    {
        let n = self.1.len();
        let mut out: Vec<&str> = Vec::new();
        let mut i: usize = 0;
        while i < n
            invariant
                i <= n,
                n == self.1@.len(),
                str_views(out@) =~= self@.rules.take(i as int).filter(
                    |p: (FilterType, Seq<char>)| p.0 is GlobPattern,
                ).map_values(|p: (FilterType, Seq<char>)| p.1),
            decreases n - i,
        {
            let keep = self.1[i].0.is_pattern();
            if keep {
                out.push(self.1[i].1.as_str());
            }
            proof {
                lemma_rule_filter_step(self@.rules, i as int, false);
            }
            i = i + 1;
        }
        proof {
            assert(self@.rules.take(n as int) =~= self@.rules);
        }
        out
    }

    /// The filter rendered for display: its title, a colon, and each rule's
    /// text.
    pub fn display_string(&self) -> (r: String)
        ensures
            r@ == display_spec(self@),
    {
        let mut out = self.0.clone();
        out.append(" :");
        let n = self.1.len();
        let mut i: usize = 0;
        while i < n
            invariant
                i <= n,
                n == self.1@.len(),
                out@ =~= self@.title + " :"@ + rule_texts(self@.rules.take(i as int)),
            decreases n - i,
        {
            out.append(" ");
            out.append(self.1[i].1.as_str());
            proof {
                lemma_rule_texts_step(self@.rules, i as int);
            }
            i = i + 1;
        }
        proof {
            assert(self@.rules.take(n as int) =~= self@.rules);
        }
        out
    }
}

/// The concatenated ` {text}` tails of a rule list's display form.
pub open spec fn rule_texts(rules: Seq<(FilterType, Seq<char>)>) -> Seq<char>
    decreases rules.len(),
{
    if rules.len() == 0 {
        Seq::empty()
    } else {
        rule_texts(rules.drop_last()) + " "@ + rules.last().1
    }
}

/// The display form of a filter: `{title} :` then each rule's text.
pub open spec fn display_spec(f: FileFilterV) -> Seq<char> {
    f.title + " :"@ + rule_texts(f.rules)
}

/// One more rule extends the displayed tail by ` {text}`.
proof fn lemma_rule_texts_step(rules: Seq<(FilterType, Seq<char>)>, i: int)
    requires
        0 <= i < rules.len(),
    ensures
        rule_texts(rules.take(i + 1)) == rule_texts(rules.take(i)) + " "@ + rules[i].1,
{
    let t = rules.take(i + 1);
    assert(t.drop_last() =~= rules.take(i));
    assert(t.last() == rules[i]);
}

/// One more rule extends the filtered texts by its own exactly when its kind
/// matches.
proof fn lemma_rule_filter_step(rules: Seq<(FilterType, Seq<char>)>, i: int, want_mime: bool)
    requires
        0 <= i < rules.len(),
    ensures
        ({
            let pred = if want_mime {
                |p: (FilterType, Seq<char>)| p.0 is MimeType
            } else {
                |p: (FilterType, Seq<char>)| p.0 is GlobPattern
            };
            let f = |p: (FilterType, Seq<char>)| p.1;
            rules.take(i + 1).filter(pred).map_values(f) == if pred(rules[i]) {
                rules.take(i).filter(pred).map_values(f).push(rules[i].1)
            } else {
                rules.take(i).filter(pred).map_values(f)
            }
        }),
{
    reveal(Seq::filter);
    let pred = if want_mime {
        |p: (FilterType, Seq<char>)| p.0 is MimeType
    } else {
        |p: (FilterType, Seq<char>)| p.0 is GlobPattern
    };
    let f = |p: (FilterType, Seq<char>)| p.1;
    let t = rules.take(i + 1);
    assert(t.drop_last() =~= rules.take(i));
    assert(t.last() == rules[i]);
    if pred(rules[i]) {
        assert(t.filter(pred) == rules.take(i).filter(pred).push(rules[i]));
        assert(rules.take(i).filter(pred).push(rules[i]).map_values(f) =~= rules.take(i).filter(
            pred,
        ).map_values(f).push(rules[i].1));
    }
}

impl Default for FileFilter {
    /// The catch-all filter shown when a request names none.
    fn default() -> (r: Self)
        ensures
            r@ == default_filter_view(),
    {
        let r = FileFilter(String::from_str("All files: (*)"), Vec::new());
        proof {
            assert(r@ =~= default_filter_view());
        }
        r
    }
}

/// The value of the catch-all filter that [`FileFilter::default`] builds.
pub open spec fn default_filter_view() -> FileFilterV {
    FileFilterV { title: "All files: (*)"@, rules: Seq::empty() }
}

/// A copy of a filter with the same mathematical value.
pub fn clone_filter(f: &FileFilter) -> (r: FileFilter)
    ensures
        r@ == f@,
{
    let n = f.1.len();
    let mut rules: Vec<(FilterType, String)> = Vec::new();
    let mut i: usize = 0;
    while i < n
        invariant
            i <= n,
            n == f.1@.len(),
            rules@.map_values(|p: (FilterType, String)| (p.0, p.1@)) =~= f@.rules.take(i as int),
        decreases n - i,
    {
        rules.push((f.1[i].0, f.1[i].1.clone()));
        proof {
            assert(f@.rules.take(i + 1) =~= f@.rules.take(i as int).push(f@.rules[i as int]));
        }
        i = i + 1;
    }
    proof {
        assert(f@.rules.take(n as int) =~= f@.rules);
    }
    FileFilter(f.0.clone(), rules)
}

/// The mathematical value of a choice.
pub struct ChoiceV {
    pub id: Seq<char>,
    pub label: Seq<char>,
    pub pairs: Seq<(Seq<char>, Seq<char>)>,
    pub initial: Seq<char>,
}

/// A choice presented beside the file list: a select from key/value pairs,
/// or a checkbox when it has none.
#[derive(Debug, Clone)]
pub struct Choice(pub String, pub String, pub Vec<(String, String)>, pub String);

impl View for Choice {
    type V = ChoiceV;

    open spec fn view(&self) -> ChoiceV {
        ChoiceV {
            id: self.0@,
            label: self.1@,
            pairs: self.2@.map_values(|p: (String, String)| (p.0@, p.1@)),
            initial: self.3@,
        }
    }
}

impl Choice {
    /// A checkbox choice with the given initial state.
    pub fn boolean(id: &str, label: &str, state: bool) -> (r: Self)
        ensures
            r@.id == id@,
            r@.label == label@,
            r@.pairs.len() == 0,
            r@.initial == if state {
                "true"@
            } else {
                "false"@
            },
    {
        let text = if state {
            "true"
        } else {
            "false"
        };
        Self::new(id, label, text)
    }

    /// A new choice with the given initial selection and no pairs yet.
    pub fn new(id: &str, label: &str, initial_selection: &str) -> (r: Self)
        ensures
            r@.id == id@,
            r@.label == label@,
            r@.pairs.len() == 0,
            r@.initial == initial_selection@,
    {
        let r = Choice(id.to_owned(), label.to_owned(), Vec::new(), initial_selection.to_owned());
        proof {
            assert(r@.pairs =~= Seq::<(Seq<char>, Seq<char>)>::empty());
        }
        r
    }

    /// This choice with a (key, value) pair appended.
    #[must_use]
    pub fn insert(self, key: &str, value: &str) -> (r: Self)
        ensures
            r@.id == self@.id,
            r@.label == self@.label,
            r@.initial == self@.initial,
            r@.pairs == self@.pairs.push((key@, value@)),
    {
        let ghost pre = self@.pairs;
        let mut pairs = self.2;
        pairs.push((key.to_owned(), value.to_owned()));
        let r = Choice(self.0, self.1, pairs, self.3);
        proof {
            assert(r@.pairs =~= pre.push((key@, value@)));
        }
        r
    }

    /// The choice's unique id.
    pub fn id(&self) -> (r: &str)
        ensures
            r@ == self@.id,
    {
        self.0.as_str()
    }

    /// The user-visible label of the choice.
    pub fn label(&self) -> (r: &str)
        ensures
            r@ == self@.label,
    {
        self.1.as_str()
    }

    /// The choice's (key, value) pairs, in order.
    pub fn pairs(&self) -> (r: Vec<(&str, &str)>)
        ensures
            r@.map_values(|p: (&str, &str)| (p.0@, p.1@)) == self@.pairs,
    {
        let n = self.2.len();
        let mut out: Vec<(&str, &str)> = Vec::new();
        let mut i: usize = 0;
        while i < n
            invariant
                i <= n,
                n == self.2@.len(),
                out@.map_values(|p: (&str, &str)| (p.0@, p.1@)) =~= self@.pairs.take(i as int),
            decreases n - i,
        {
            out.push((self.2[i].0.as_str(), self.2[i].1.as_str()));
            proof {
                assert(self@.pairs.take(i + 1) =~= self@.pairs.take(i as int).push(
                    self@.pairs[i as int],
                ));
            }
            i = i + 1;
        }
        proof {
            assert(self@.pairs.take(n as int) =~= self@.pairs);
        }
        out
    }

    /// The initially selected value.
    pub fn initial_selection(&self) -> (r: &str)
        ensures
            r@ == self@.initial,
    {
        self.3.as_str()
    }
}

/// Why a path payload was rejected at the boundary.
#[derive(Debug, Clone, Copy, PartialEq, Eq, Structural)]
pub enum FilePathError {
    /// A nul byte sits before the final position.
    InteriorNul,
    /// The payload does not end in a nul byte.
    NotNulTerminated,
}

/// A path as it crosses the portal boundary: bytes free of nul, framed on
/// the wire by one trailing nul byte.
#[derive(Debug, Clone)]
pub struct FilePath(pub Vec<u8>);

impl FilePath {
    /// The invariant of an accepted path: no nul byte anywhere.
    pub open spec fn wf(&self) -> bool {
        forall|i: int| 0 <= i < self.0@.len() ==> self.0@[i] != 0
    }

    /// Parses a wire payload: accepted exactly when its final byte is nul
    /// and no other is, yielding the path bytes without the terminator.
    /// Anything else is rejected — a malformed payload never becomes a path:
    /// an interior nul anywhere is [`FilePathError::InteriorNul`], otherwise
    /// a missing trailing nul is [`FilePathError::NotNulTerminated`].
    pub fn from_bytes_with_nul(bytes: Vec<u8>) -> (r: Result<FilePath, FilePathError>)
        ensures
            r is Ok <==> bytes@.len() >= 1 && bytes@.last() == 0 && (forall|i: int|
                0 <= i < bytes@.len() - 1 ==> bytes@[i] != 0),
            r matches Ok(f) ==> f.0@ == bytes@.take(bytes@.len() - 1) && f.wf(),
            r == Err::<FilePath, FilePathError>(FilePathError::InteriorNul) <==> exists|i: int|
                0 <= i < bytes@.len() - 1 && bytes@[i] == 0,
            r == Err::<FilePath, FilePathError>(FilePathError::NotNulTerminated) <==> (forall|
                i: int,
            |
                0 <= i < bytes@.len() - 1 ==> bytes@[i] != 0) && (bytes@.len() == 0
                || bytes@.last() != 0),
    {
        let n = bytes.len();
        let mut i: usize = 0;
        while i < n
            invariant
                i <= n,
                n == bytes@.len(),
                forall|j: int| 0 <= j < i ==> bytes@[j] != 0,
            decreases n - i,
        {
            if bytes[i] == 0 {
                if i == n - 1 {
                    let mut path = bytes;
                    path.truncate(i);
                    return Ok(FilePath(path));
                }
                return Err(FilePathError::InteriorNul);
            }
            i = i + 1;
        }
        Err(FilePathError::NotNulTerminated)
    }

    /// The path bytes, without any framing.
    pub fn as_bytes(&self) -> (r: &Vec<u8>)
        ensures
            r == &self.0,
    {
        &self.0
    }

    /// The wire form of the path: its bytes with the trailing nul restored.
    pub fn to_bytes_with_nul(&self) -> (r: Vec<u8>)
        ensures
            r@ == self.0@.push(0u8),
    {
        let mut out = self.0.clone();
        out.push(0);
        proof {
            assert(out@ =~= self.0@.push(0u8));
        }
        out
    }
}

/// The mathematical value of a chooser request.
pub struct FileChosenV {
    pub is_open: bool,
    pub handle_token: Seq<char>,
    pub accept_label: Seq<char>,
    pub modal: bool,
    pub multiple: bool,
    pub directory: bool,
    pub filters: Seq<FileFilterV>,
    pub current_filter: Option<FileFilterV>,
    pub choices: Seq<ChoiceV>,
    pub current_folder: Option<Seq<u8>>,
    pub current_file: Option<Seq<u8>>,
}

/// The request the widget was opened for: pick existing files or
/// directories, or name a file to save.
#[derive(Debug, Clone)]
pub enum FileChosen {
    OpenFile {
        handle_token: String,
        accept_label: String,
        modal: bool,
        multiple: bool,
        directory: bool,
        filters: Vec<FileFilter>,
        current_filter: Option<FileFilter>,
        choices: Vec<Choice>,
        current_folder: Option<FilePath>,
    },
    SaveFile {
        handle_token: String,
        accept_label: String,
        modal: bool,
        filters: Vec<FileFilter>,
        current_filter: Option<FileFilter>,
        choices: Vec<Choice>,
        current_folder: FilePath,
        current_file: FilePath,
    },
}

/// The views of a list of filters.
pub open spec fn filter_views(s: Seq<FileFilter>) -> Seq<FileFilterV> {
    s.map_values(|f: FileFilter| f@)
}

/// The views of a list of choices.
pub open spec fn choice_views(s: Seq<Choice>) -> Seq<ChoiceV> {
    s.map_values(|c: Choice| c@)
}

impl View for FileChosen {
    type V = FileChosenV;

    open spec fn view(&self) -> FileChosenV {
        match self {
            FileChosen::OpenFile {
                handle_token,
                accept_label,
                modal,
                multiple,
                directory,
                filters,
                current_filter,
                choices,
                current_folder,
            } => FileChosenV {
                is_open: true,
                handle_token: handle_token@,
                accept_label: accept_label@,
                modal: *modal,
                multiple: *multiple,
                directory: *directory,
                filters: filter_views(filters@),
                current_filter: match current_filter {
                    Some(f) => Some(f@),
                    None => None,
                },
                choices: choice_views(choices@),
                current_folder: match current_folder {
                    Some(p) => Some(p.0@),
                    None => None,
                },
                current_file: None,
            },
            FileChosen::SaveFile {
                handle_token,
                accept_label,
                modal,
                filters,
                current_filter,
                choices,
                current_folder,
                current_file,
            } => FileChosenV {
                is_open: false,
                handle_token: handle_token@,
                accept_label: accept_label@,
                modal: *modal,
                multiple: false,
                directory: false,
                filters: filter_views(filters@),
                current_filter: match current_filter {
                    Some(f) => Some(f@),
                    None => None,
                },
                choices: choice_views(choices@),
                current_folder: Some(current_folder.0@),
                current_file: Some(current_file.0@),
            },
        }
    }
}

impl Default for FileChosen {
    /// An open-file request with everything unset: not multiple, not
    /// directory, modal, no filters or choices.
    fn default() -> (r: Self)
        ensures
            r@.is_open,
            r@.handle_token.len() == 0,
            r@.accept_label.len() == 0,
            r@.modal,
            !r@.multiple,
            !r@.directory,
            r@.filters.len() == 0,
            r@.current_filter is None,
            r@.choices.len() == 0,
            r@.current_folder is None,
    {
        let r = FileChosen::OpenFile {
            handle_token: String::new(),
            accept_label: String::new(),
            modal: true,
            multiple: false,
            directory: false,
            filters: Vec::new(),
            current_filter: None,
            choices: Vec::new(),
            current_folder: None,
        };
        proof {
            assert(r@.filters =~= Seq::<FileFilterV>::empty());
            assert(r@.choices =~= Seq::<ChoiceV>::empty());
        }
        r
    }
}

impl FileChosen {
    /// Whether this request picks existing files.
    pub fn is_filechooser(&self) -> (r: bool)
        ensures
            r == self@.is_open,
    {
        matches!(self, FileChosen::OpenFile { .. })
    }

    /// Whether this request accumulates several picks.
    pub fn is_multi_filechooser(&self) -> (r: bool)
        ensures
            r == (self@.is_open && self@.multiple),
    {
        match self {
            FileChosen::OpenFile { multiple, .. } => *multiple,
            FileChosen::SaveFile { .. } => false,
        }
    }

    /// Whether this request names a file to save.
    pub fn is_savefile(&self) -> (r: bool)
        ensures
            r == !self@.is_open,
    {
        !self.is_filechooser()
    }

    /// Whether this request picks directories rather than files.
    pub fn is_directory(&self) -> (r: bool)
        ensures
            r == (self@.is_open && self@.directory),
    {
        match self {
            FileChosen::OpenFile { directory, .. } => *directory,
            FileChosen::SaveFile { .. } => false,
        }
    }

    /// The filters offered with the request.
    pub fn filters(&self) -> (r: &[FileFilter])
        ensures
            filter_views(r@) == self@.filters,
    {
        match self {
            FileChosen::OpenFile { filters, .. } => filters.as_slice(),
            FileChosen::SaveFile { filters, .. } => filters.as_slice(),
        }
    }

    /// The choices offered with the request.
    pub fn choices(&self) -> (r: &[Choice])
        ensures
            choice_views(r@) == self@.choices,
    {
        match self {
            FileChosen::OpenFile { choices, .. } => choices.as_slice(),
            FileChosen::SaveFile { choices, .. } => choices.as_slice(),
        }
    }

    /// The request's handle token.
    pub fn handle_token(&self) -> (r: &str)
        ensures
            r@ == self@.handle_token,
    {
        match self {
            FileChosen::OpenFile { handle_token, .. } => handle_token.as_str(),
            FileChosen::SaveFile { handle_token, .. } => handle_token.as_str(),
        }
    }

    /// The label of the accept button.
    pub fn accept_label(&self) -> (r: &str)
        ensures
            r@ == self@.accept_label,
    {
        match self {
            FileChosen::OpenFile { accept_label, .. } => accept_label.as_str(),
            FileChosen::SaveFile { accept_label, .. } => accept_label.as_str(),
        }
    }

    /// The filter selected when the request arrived, if any.
    pub fn current_filter(&self) -> (r: Option<&FileFilter>)
        ensures
            match r {
                Some(f) => self@.current_filter == Some(f@),
                None => self@.current_filter is None,
            },
    {
        match self {
            FileChosen::OpenFile { current_filter, .. } => current_filter.as_ref(),
            FileChosen::SaveFile { current_filter, .. } => current_filter.as_ref(),
        }
    }

    /// Whether the dialog is modal.
    pub fn is_modal(&self) -> (r: bool)
        ensures
            r == self@.modal,
    {
        match self {
            FileChosen::OpenFile { modal, .. } => *modal,
            FileChosen::SaveFile { modal, .. } => *modal,
        }
    }
}

} // verus!
