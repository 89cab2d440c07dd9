//! From the diagnostics of the compiler to what the client is told.
//!
//! Each diagnostic is published on its own, to the file of its first label.
//! A file that had diagnostics after the previous check and has none after
//! this one is told so with an empty list.

use crate::paths::has_root;
use crate::paths::join;
use crate::paths::joined_path;
use crate::paths::rooted_path;
use crate::text::column_of;
use crate::text::line_of;
use crate::text::position_from_range;
use crate::text::Position;
use crate::text::Range;
use crate::uri::reads_as_uri;
use crate::uri::Uri;
use vstd::prelude::*;
use vstd::string::StringExecFns;
use vstd::utf8::encode_utf8;

verus! {

/// How grave the compiler holds a diagnostic to be.
#[derive(Clone, Copy, Debug, PartialEq, Eq, Hash, Structural)]
pub enum Severity {
    Error,
    Warning,
    Info,
    Note,
    Help,
}

/// How grave the client is told a diagnostic is.
#[derive(Clone, Copy, Debug, PartialEq, Eq, Hash, Structural)]
pub enum DiagnosticSeverity {
    Error,
    Warning,
    Information,
    Hint,
}

/// The source that a label points into.
#[derive(Debug)]
pub struct Source {
    pub name: Option<String>,
    pub content: String,
}

/// A message attached to a byte range of a source.
#[derive(Debug)]
pub struct Label {
    pub message: String,
    pub source: Option<Source>,
    pub start: usize,
    pub end: usize,
}

/// A diagnostic as the compiler raised it.
#[derive(Debug)]
pub struct Diagnostic {
    pub message: String,
    pub severity: Severity,
    pub code: Option<String>,
    pub labels: Option<Vec<Label>>,
    pub help: Option<Vec<String>>,
}

/// A range of a document.
#[derive(Debug)]
pub struct FileRange {
    pub uri: Uri,
    pub range: Range,
}

/// A label, placed in a document.
#[derive(Debug)]
pub struct DiagnosticLabel {
    pub location: FileRange,
    pub message: String,
}

/// A diagnostic as the client is told it.
#[derive(Debug)]
pub struct FileDiagnostic {
    pub range: Range,
    pub severity: DiagnosticSeverity,
    pub code: Option<String>,
    pub source: String,
    pub message: String,
    pub related_information: Vec<DiagnosticLabel>,
}

/// The diagnostics of one document, as one notification carries them.
#[derive(Debug)]
pub struct PublishDiagnostics {
    pub uri: Uri,
    pub diagnostics: Vec<FileDiagnostic>,
}

/// What a [`DiagnosticLabel`] holds.
pub struct LabelView {
    pub uri: Seq<char>,
    pub range: Range,
    pub message: Seq<char>,
}

/// What a [`FileDiagnostic`] holds.
pub struct FileDiagnosticView {
    pub range: Range,
    pub severity: DiagnosticSeverity,
    pub code: Option<Seq<char>>,
    pub source: Seq<char>,
    pub message: Seq<char>,
    pub related_information: Seq<LabelView>,
}

/// What a [`PublishDiagnostics`] holds.
pub struct PublishView {
    pub uri: Seq<char>,
    pub diagnostics: Seq<FileDiagnosticView>,
}

impl View for DiagnosticLabel {
    type V = LabelView;

    open spec fn view(&self) -> LabelView {
        LabelView { uri: self.location.uri@, range: self.location.range, message: self.message@ }
    }
}

/// What each label of `labels` holds.
pub open spec fn label_views(labels: Seq<DiagnosticLabel>) -> Seq<LabelView> {
    labels.map_values(|label: DiagnosticLabel| label@)
}

impl View for FileDiagnostic {
    type V = FileDiagnosticView;

    open spec fn view(&self) -> FileDiagnosticView {
        FileDiagnosticView {
            range: self.range,
            severity: self.severity,
            code: match self.code {
                Some(code) => Some(code@),
                None => None,
            },
            source: self.source@,
            message: self.message@,
            related_information: label_views(self.related_information@),
        }
    }
}

impl View for PublishDiagnostics {
    type V = PublishView;

    open spec fn view(&self) -> PublishView {
        PublishView {
            uri: self.uri@,
            diagnostics: self.diagnostics@.map_values(|d: FileDiagnostic| d@),
        }
    }
}

/// What each notification of `notifications` holds.
pub open spec fn publish_views(notifications: Seq<PublishDiagnostics>) -> Seq<PublishView> {
    notifications.map_values(|n: PublishDiagnostics| n@)
}

/// The name that the server gives as the source of its diagnostics.
pub open spec fn source_name() -> Seq<char> {
    "lume"@
}

/// How each severity of the compiler is told to the client.
pub open spec fn lsp_severity(severity: Severity) -> DiagnosticSeverity {
    match severity {
        Severity::Note => DiagnosticSeverity::Information,
        Severity::Info => DiagnosticSeverity::Information,
        Severity::Help => DiagnosticSeverity::Hint,
        Severity::Warning => DiagnosticSeverity::Warning,
        Severity::Error => DiagnosticSeverity::Error,
    }
}

pub fn lower_severity(severity: Severity) -> (r: DiagnosticSeverity)
    ensures
        r == lsp_severity(severity),
{
    match severity {
        Severity::Note => DiagnosticSeverity::Information,
        Severity::Info => DiagnosticSeverity::Information,
        Severity::Help => DiagnosticSeverity::Hint,
        Severity::Warning => DiagnosticSeverity::Warning,
        Severity::Error => DiagnosticSeverity::Error,
    }
}

/// The position of a byte offset, as the protocol carries it.
pub open spec fn position_at(content: Seq<u8>, index: usize) -> Position {
    Position {
        line: (line_of(content, index as int) as usize) as u32,
        character: (column_of(content, index as int) as usize) as u32,
    }
}

/// The text of the URI of a source named `name`: a rooted name stands for
/// itself, any other is joined to the workspace root.
pub open spec fn label_uri(root: Seq<char>, name: Seq<char>) -> Seq<char> {
    if rooted_path(name) {
        "file://"@ + name
    } else {
        joined_path(root, name)
    }
}

/// What a label is lowered to. A label without a source, or whose source
/// has no name, or whose file cannot be named by a URI, is lowered to
/// nothing.
pub open spec fn lowered(root: Seq<char>, label: Label) -> Option<LabelView> {
    match label.source {
        Some(source) => match source.name {
            Some(name) => if reads_as_uri(label_uri(root, name@)) {
                Some(
                    LabelView {
                        uri: label_uri(root, name@),
                        range: Range {
                            start: position_at(encode_utf8(source.content@), label.start),
                            end: position_at(encode_utf8(source.content@), label.end),
                        },
                        message: label.message@,
                    },
                )
            } else {
                None
            },
            None => None,
        },
        None => None,
    }
}

/// What the labels of `labels` from position `from` on are lowered to, in
/// order.
pub open spec fn lowered_labels(root: Seq<char>, labels: Seq<Label>, from: nat) -> Seq<LabelView>
    decreases labels.len() - from,
{
    if from >= labels.len() {
        Seq::empty()
    } else {
        (match lowered(root, labels[from as int]) {
            Some(label) => seq![label],
            None => Seq::empty(),
        }) + lowered_labels(root, labels, from + 1)
    }
}

/// The help notes from position `from` on, each behind a line break.
pub open spec fn help_text(notes: Seq<String>, from: nat) -> Seq<char>
    decreases notes.len() - from,
{
    if from >= notes.len() {
        Seq::empty()
    } else {
        ("\n"@ + notes[from as int]@) + help_text(notes, from + 1)
    }
}

/// The help notes of a diagnostic, each behind a line break.
pub open spec fn help_of(diagnostic: Diagnostic) -> Seq<char> {
    match diagnostic.help {
        Some(notes) => help_text(notes@, 0),
        None => Seq::empty(),
    }
}

/// What the labels of a diagnostic are lowered to.
pub open spec fn labels_of(root: Seq<char>, diagnostic: Diagnostic) -> Seq<LabelView> {
    match diagnostic.labels {
        Some(labels) => lowered_labels(root, labels@, 0),
        None => Seq::empty(),
    }
}

/// The notification that a diagnostic gives: none where no label of it is
/// lowered to anything, else one for the file of the first label.
pub open spec fn published(root: Seq<char>, diagnostic: Diagnostic) -> Option<PublishView> {
    let labels = labels_of(root, diagnostic);
    if labels.len() == 0 {
        None
    } else {
        Some(
            PublishView {
                uri: labels[0].uri,
                diagnostics: seq![
                    FileDiagnosticView {
                        range: labels[0].range,
                        severity: lsp_severity(diagnostic.severity),
                        code: match diagnostic.code {
                            Some(code) => Some(code@),
                            None => None,
                        },
                        source: source_name(),
                        message: labels[0].message + help_of(diagnostic),
                        related_information: labels.skip(1),
                    },
                ],
            },
        )
    }
}

/// Lower the given label into a [`DiagnosticLabel`].
///
/// If the label doesn't have any source content attached, nothing is
/// returned.
pub fn lower_diagnostic_label(root: &Uri, label: &Label) -> (r: Option<DiagnosticLabel>)
    ensures
        match r {
            Some(lower) => lowered(root@, *label) == Some(lower@),
            None => lowered(root@, *label).is_none(),
        },
{
    let source = match &label.source {
        Some(source) => source,
        None => {
            return None;
        },
    };
    let name = match &source.name {
        Some(name) => name,
        None => {
            return None;
        },
    };
    let range = position_from_range(source.content.as_str(), label.start, label.end);
    let text = if has_root(name.as_str()) {
        String::from_str("file://").concat(name.as_str())
    } else {
        join(root.as_str(), name.as_str())
    };
    match Uri::parse(text.as_str()) {
        Some(uri) => Some(
            DiagnosticLabel { location: FileRange { uri, range }, message: label.message.clone() },
        ),
        None => None,
    }
}

/// A set of documents, in the order in which they were first recorded.
#[derive(Debug)]
pub struct UriSet {
    items: Vec<Uri>,
}

impl View for UriSet {
    type V = Seq<Seq<char>>;

    closed spec fn view(&self) -> Seq<Seq<char>> {
        self.items@.map_values(|uri: Uri| uri@)
    }
}

/// `files` with `uri` as its last, unless it holds `uri` already.
pub open spec fn note(files: Seq<Seq<char>>, uri: Seq<char>) -> Seq<Seq<char>> {
    if files.contains(uri) {
        files
    } else {
        files.push(uri)
    }
}

impl UriSet {
    /// Whether no document is recorded twice.
    pub open spec fn well_formed(&self) -> bool {
        self@.no_duplicates()
    }

    pub fn new() -> (set: UriSet)
        ensures
            set@ == Seq::<Seq<char>>::empty(),
            set.well_formed(),
    {
        let set = UriSet { items: Vec::new() };
        assert(set@ =~= Seq::<Seq<char>>::empty());
        set
    }

    pub fn len(&self) -> (n: usize)
        ensures
            n == self@.len(),
    {
        self.items.len()
    }

    /// The document at position `at`, in the order of recording; none at
    /// or beyond the length.
    pub fn get(&self, at: usize) -> (r: Option<&Uri>)
        ensures
            match r {
                Some(uri) => at < self@.len() && uri@ == self@[at as int],
                None => at >= self@.len(),
            },
    {
        if at < self.items.len() {
            Some(&self.items[at])
        } else {
            None
        }
    }

    pub fn contains(&self, uri: &Uri) -> (held: bool)
        ensures
            held == self@.contains(uri@),
    {
        let mut i: usize = 0;
        while i < self.items.len()
            invariant
                0 <= i <= self.items.len(),
                forall|j: int| 0 <= j < i ==> self@[j] != uri@,
            decreases self.items.len() - i,
        {
            if self.items[i].same(uri) {
                assert(self@[i as int] == uri@);
                return true;
            }
            i = i + 1;
        }
        false
    }

    /// Records `uri`, unless it is recorded already. The result says whether
    /// it was new.
    pub fn insert(&mut self, uri: Uri) -> (fresh: bool)
        ensures
            final(self)@ == note(old(self)@, uri@),
            fresh == !old(self)@.contains(uri@),
            old(self).well_formed() ==> final(self).well_formed(),
    {
        if self.contains(&uri) {
            false
        } else {
            self.items.push(uri);
            assert(self@ =~= old(self)@.push(uri@));
            true
        }
    }
}

/// `files` after the file of each label from position `from` on was noted.
pub open spec fn note_labels(files: Seq<Seq<char>>, labels: Seq<LabelView>, from: nat) -> Seq<
    Seq<char>,
>
    decreases labels.len() - from,
{
    if from >= labels.len() {
        files
    } else {
        note_labels(note(files, labels[from as int].uri), labels, from + 1)
    }
}

/// `files` after the files of the labels of each diagnostic from position
/// `from` on were noted.
pub open spec fn files_after(
    root: Seq<char>,
    files: Seq<Seq<char>>,
    diagnostics: Seq<Diagnostic>,
    from: nat,
) -> Seq<Seq<char>>
    decreases diagnostics.len() - from,
{
    if from >= diagnostics.len() {
        files
    } else {
        files_after(
            root,
            note_labels(files, labels_of(root, diagnostics[from as int]), 0),
            diagnostics,
            from + 1,
        )
    }
}

/// The notifications that the diagnostics from position `from` on give, one
/// for each that gives any, in order.
pub open spec fn reports(root: Seq<char>, diagnostics: Seq<Diagnostic>, from: nat) -> Seq<
    PublishView,
>
    decreases diagnostics.len() - from,
{
    if from >= diagnostics.len() {
        Seq::empty()
    } else {
        (match published(root, diagnostics[from as int]) {
            Some(notification) => seq![notification],
            None => Seq::empty(),
        }) + reports(root, diagnostics, from + 1)
    }
}

/// An empty list of diagnostics for each file of `prev` from position `from`
/// on that `curr` does not hold.
pub open spec fn clears(prev: Seq<Seq<char>>, curr: Seq<Seq<char>>, from: nat) -> Seq<PublishView>
    decreases prev.len() - from,
{
    if from >= prev.len() {
        Seq::empty()
    } else {
        (if curr.contains(prev[from as int]) {
            Seq::empty()
        } else {
            seq![PublishView { uri: prev[from as int], diagnostics: Seq::empty() }]
        }) + clears(prev, curr, from + 1)
    }
}

/// Everything that is published after a check: the reports of its
/// diagnostics, then the clears for the files that no longer have any.
pub open spec fn drained(
    root: Seq<char>,
    prev: Seq<Seq<char>>,
    curr: Seq<Seq<char>>,
    diagnostics: Seq<Diagnostic>,
) -> Seq<PublishView> {
    reports(root, diagnostics, 0) + clears(prev, files_after(root, curr, diagnostics, 0), 0)
}

/// Lowers every label of `labels`, and leaves out those that are lowered to
/// nothing.
fn lower_labels(root: &Uri, labels: &Vec<Label>) -> (r: Vec<DiagnosticLabel>)
    ensures
        label_views(r@) == lowered_labels(root@, labels@, 0),
{
    let mut out: Vec<DiagnosticLabel> = Vec::new();
    let mut i: usize = 0;
    assert(label_views(out@) =~= Seq::<LabelView>::empty());
    while i < labels.len()
        invariant
            0 <= i <= labels.len(),
            lowered_labels(root@, labels@, 0) == label_views(out@) + lowered_labels(
                root@,
                labels@,
                i as nat,
            ),
        decreases labels.len() - i,
    {
        let ghost before = out@;
        let ghost rest = lowered_labels(root@, labels@, (i + 1) as nat);
        match lower_diagnostic_label(root, &labels[i]) {
            Some(label) => {
                out.push(label);
                assert(label_views(out@) =~= label_views(before) + seq![label@]);
                assert(label_views(out@) + rest =~= label_views(before) + (seq![label@] + rest));
            },
            None => {
                assert(Seq::<LabelView>::empty() + rest =~= rest);
            },
        }
        i = i + 1;
    }
    assert(label_views(out@) + Seq::<LabelView>::empty() =~= label_views(out@));
    out
}

/// The message of a diagnostic: that of its first label, then each help
/// note on a line of its own.
fn message_with_help(message: &String, help: &Option<Vec<String>>) -> (r: String)
    ensures
        r@ == message@ + match *help {
            Some(notes) => help_text(notes@, 0),
            None => Seq::empty(),
        },
{
    let mut text = message.clone();
    match help {
        Some(notes) => {
            let mut i: usize = 0;
            assert(message@ + help_text(notes@, 0) =~= text@ + help_text(notes@, 0));
            while i < notes.len()
                invariant
                    0 <= i <= notes.len(),
                    message@ + help_text(notes@, 0) == text@ + help_text(notes@, i as nat),
                decreases notes.len() - i,
            {
                let ghost before = text@;
                let ghost rest = help_text(notes@, (i + 1) as nat);
                text.append("\n");
                text.append(notes[i].as_str());
                assert(text@ + rest =~= before + (("\n"@ + notes@[i as int]@) + rest));
                i = i + 1;
            }
            assert(text@ + Seq::<char>::empty() =~= text@);
        },
        None => {
            assert(message@ + Seq::<char>::empty() =~= message@);
        },
    }
    text
}

/// Publishes the given diagnostic to the language client: hands back the
/// notification that it gives, and records the file of each of its labels
/// in `curr`.
pub fn publish_diagnostic(root: &Uri, curr: &mut UriSet, diagnostic: &Diagnostic) -> (r: Option<
    PublishDiagnostics,
>)
    ensures
        final(curr)@ == note_labels(old(curr)@, labels_of(root@, *diagnostic), 0),
        old(curr).well_formed() ==> final(curr).well_formed(),
        match r {
            Some(notification) => published(root@, *diagnostic) == Some(notification@),
            None => published(root@, *diagnostic).is_none(),
        },
{
    let labels = match &diagnostic.labels {
        Some(labels) => labels,
        None => {
            return None;
        },
    };
    let mut lower = lower_labels(root, labels);
    let ghost views = label_views(lower@);
    let mut i: usize = 0;
    while i < lower.len()
        invariant
            0 <= i <= lower.len(),
            views == label_views(lower@),
            note_labels(old(curr)@, views, 0) == note_labels(curr@, views, i as nat),
            old(curr).well_formed() ==> curr.well_formed(),
        decreases lower.len() - i,
    {
        curr.insert(lower[i].location.uri.duplicate());
        i = i + 1;
    }
    if lower.len() == 0 {
        return None;
    }
    let primary = lower.remove(0);
    assert(label_views(lower@) =~= views.skip(1));
    assert(primary@ == views[0]);
    let message = message_with_help(&primary.message, &diagnostic.help);
    let code = match &diagnostic.code {
        Some(code) => Some(code.clone()),
        None => None,
    };
    let report = FileDiagnostic {
        range: primary.location.range,
        severity: lower_severity(diagnostic.severity),
        code,
        source: String::from_str("lume"),
        message,
        related_information: lower,
    };
    let mut diagnostics: Vec<FileDiagnostic> = Vec::new();
    diagnostics.push(report);
    let notification = PublishDiagnostics { uri: primary.location.uri, diagnostics };
    assert(notification@.diagnostics =~= seq![report@]);
    Some(notification)
}

/// An empty list of diagnostics for the given file.
pub fn publish_diagnostics_to_file(file: Uri) -> (r: PublishDiagnostics)
    ensures
        r@ == (PublishView { uri: file@, diagnostics: Seq::empty() }),
{
    let r = PublishDiagnostics { uri: file, diagnostics: Vec::new() };
    assert(r@.diagnostics =~= Seq::<FileDiagnosticView>::empty());
    r
}

/// Drains the diagnostics of a check to the language client: one
/// notification for each diagnostic that gives any; then, for each file that
/// had diagnostics after the check before and has none now, an empty list.
/// The files of this check are recorded in `curr`.
pub fn drain_diagnostics(
    root: &Uri,
    prev: &UriSet,
    curr: &mut UriSet,
    diagnostics: &Vec<Diagnostic>,
) -> (r: Vec<PublishDiagnostics>)
    ensures
        final(curr)@ == files_after(root@, old(curr)@, diagnostics@, 0),
        old(curr).well_formed() ==> final(curr).well_formed(),
        publish_views(r@) == drained(root@, prev@, old(curr)@, diagnostics@),
{
    let mut out: Vec<PublishDiagnostics> = Vec::new();
    assert(publish_views(out@) =~= Seq::<PublishView>::empty());
    let mut i: usize = 0;
    while i < diagnostics.len()
        invariant
            0 <= i <= diagnostics.len(),
            files_after(root@, old(curr)@, diagnostics@, 0) == files_after(
                root@,
                curr@,
                diagnostics@,
                i as nat,
            ),
            old(curr).well_formed() ==> curr.well_formed(),
            reports(root@, diagnostics@, 0) == publish_views(out@) + reports(
                root@,
                diagnostics@,
                i as nat,
            ),
        decreases diagnostics.len() - i,
    {
        let ghost before = out@;
        let ghost rest = reports(root@, diagnostics@, (i + 1) as nat);
        match publish_diagnostic(root, curr, &diagnostics[i]) {
            Some(notification) => {
                out.push(notification);
                assert(publish_views(out@) =~= publish_views(before) + seq![notification@]);
                assert(publish_views(out@) + rest =~= publish_views(before) + (seq![
                    notification@,
                ] + rest));
            },
            None => {
                assert(Seq::<PublishView>::empty() + rest =~= rest);
            },
        }
        i = i + 1;
    }
    assert(publish_views(out@) + Seq::<PublishView>::empty() =~= publish_views(out@));
    let ghost reported = out@;
    let mut k: usize = 0;
    assert(publish_views(reported) + clears(prev@, curr@, 0) =~= publish_views(out@) + clears(
        prev@,
        curr@,
        0,
    ));
    while k < prev.len()
        invariant
            0 <= k <= prev@.len(),
            publish_views(reported) + clears(prev@, curr@, 0) == publish_views(out@) + clears(
                prev@,
                curr@,
                k as nat,
            ),
        decreases prev@.len() - k,
    {
        let ghost before = out@;
        let ghost rest = clears(prev@, curr@, (k + 1) as nat);
        match prev.get(k) {
            Some(file) => {
                if !curr.contains(file) {
                    let notification = publish_diagnostics_to_file(file.duplicate());
                    out.push(notification);
                    assert(publish_views(out@) =~= publish_views(before) + seq![notification@]);
                    assert(publish_views(out@) + rest =~= publish_views(before) + (seq![
                        notification@,
                    ] + rest));
                } else {
                    assert(Seq::<PublishView>::empty() + rest =~= rest);
                }
            },
            None => {},
        }
        k = k + 1;
    }
    assert(publish_views(out@) + Seq::<PublishView>::empty() =~= publish_views(out@));
    out
}

/// Whether the notification at position `at` is the last for the file
/// `uri`.
pub open spec fn last_for(notifications: Seq<PublishView>, uri: Seq<char>, at: int) -> bool {
    &&& 0 <= at < notifications.len()
    &&& notifications[at].uri == uri
    &&& forall|j: int| at < j < notifications.len() ==> (#[trigger] notifications[j]).uri != uri
}

/// Noting a file keeps the files that were noted.
pub proof fn lemma_note_labels_keeps(
    files: Seq<Seq<char>>,
    labels: Seq<LabelView>,
    from: nat,
    uri: Seq<char>,
)
    ensures
        files.contains(uri) ==> note_labels(files, labels, from).contains(uri),
        forall|j: int|
            from <= j < labels.len() ==> note_labels(files, labels, from).contains(
                (#[trigger] labels[j]).uri,
            ),
    decreases labels.len() - from,
{
    if from < labels.len() {
        let next = note(files, labels[from as int].uri);
        if files.contains(uri) {
            let k = choose|k: int| 0 <= k < files.len() && files[k] == uri;
            assert(next[k] == uri);
        }
        if !files.contains(labels[from as int].uri) {
            assert(next[files.len() as int] == labels[from as int].uri);
        }
        assert(next.contains(labels[from as int].uri));
        lemma_note_labels_keeps(next, labels, from + 1, uri);
        lemma_note_labels_keeps(next, labels, from + 1, labels[from as int].uri);
    }
}

/// The files of a check hold every file that was noted before, and the
/// file of every report.
pub proof fn lemma_files_after_keeps(
    root: Seq<char>,
    files: Seq<Seq<char>>,
    diagnostics: Seq<Diagnostic>,
    from: nat,
    uri: Seq<char>,
)
    ensures
        files.contains(uri) ==> files_after(root, files, diagnostics, from).contains(uri),
        forall|k: int|
            0 <= k < reports(root, diagnostics, from).len() ==> files_after(
                root,
                files,
                diagnostics,
                from,
            ).contains((#[trigger] reports(root, diagnostics, from)[k]).uri),
        forall|k: int|
            0 <= k < reports(root, diagnostics, from).len() ==> (#[trigger] reports(
                root,
                diagnostics,
                from,
            )[k]).diagnostics.len() == 1,
    decreases diagnostics.len() - from,
{
    if from < diagnostics.len() {
        let labels = labels_of(root, diagnostics[from as int]);
        let next = note_labels(files, labels, 0);
        lemma_note_labels_keeps(files, labels, 0, uri);
        lemma_files_after_keeps(root, next, diagnostics, from + 1, uri);
        let rest = reports(root, diagnostics, from + 1);
        let all = reports(root, diagnostics, from);
        match published(root, diagnostics[from as int]) {
            Some(notification) => {
                assert(all =~= seq![notification] + rest);
                assert(labels.len() > 0);
                assert(next.contains(labels[0].uri));
                lemma_files_after_keeps(root, next, diagnostics, from + 1, labels[0].uri);
                assert forall|k: int| 0 <= k < all.len() implies files_after(
                    root,
                    files,
                    diagnostics,
                    from,
                ).contains((#[trigger] all[k]).uri) && all[k].diagnostics.len() == 1 by {
                    if k > 0 {
                        assert(all[k] == rest[k - 1]);
                    }
                }
            },
            None => {
                assert(all =~= rest);
            },
        }
    }
}

/// A file is cleared exactly where it had diagnostics before and has none
/// now, and a clear lists nothing.
pub proof fn lemma_clears(prev: Seq<Seq<char>>, curr: Seq<Seq<char>>, from: nat, uri: Seq<char>)
    ensures
        forall|k: int|
            0 <= k < clears(prev, curr, from).len() ==> (#[trigger] clears(
                prev,
                curr,
                from,
            )[k]).diagnostics.len() == 0 && prev.contains(clears(prev, curr, from)[k].uri)
                && !curr.contains(clears(prev, curr, from)[k].uri),
        (exists|j: int| from <= j < prev.len() && prev[j] == uri) && !curr.contains(uri)
            ==> exists|k: int|
            0 <= k < clears(prev, curr, from).len() && (#[trigger] clears(prev, curr, from)[k]).uri
                == uri,
    decreases prev.len() - from,
{
    if from < prev.len() {
        lemma_clears(prev, curr, from + 1, uri);
        let rest = clears(prev, curr, from + 1);
        let all = clears(prev, curr, from);
        if curr.contains(prev[from as int]) {
            assert(all =~= rest);
        } else {
            let head = PublishView { uri: prev[from as int], diagnostics: Seq::empty() };
            assert(all =~= seq![head] + rest);
            assert forall|k: int| 0 <= k < all.len() implies (#[trigger] all[k]).diagnostics.len()
                == 0 && prev.contains(all[k].uri) && !curr.contains(all[k].uri) by {
                if k > 0 {
                    assert(all[k] == rest[k - 1]);
                }
            }
            if (exists|j: int| from <= j < prev.len() && prev[j] == uri) && !curr.contains(uri) {
                if prev[from as int] == uri {
                    assert(all[0].uri == uri);
                } else {
                    let k = choose|k: int| 0 <= k < rest.len() && (#[trigger] rest[k]).uri == uri;
                    assert(all[k + 1] == rest[k]);
                }
            }
        }
    }
}

/// After a check, the last notification for a file lists nothing exactly
/// where the file had diagnostics after the check before and has none now.
/// Every other notification lists one diagnostic.
pub proof fn lemma_last_notification(
    root: Seq<char>,
    prev: Seq<Seq<char>>,
    diagnostics: Seq<Diagnostic>,
    uri: Seq<char>,
)
    ensures
        ({
            let sent = drained(root, prev, Seq::empty(), diagnostics);
            let curr = files_after(root, Seq::empty(), diagnostics, 0);
            &&& (exists|at: int| last_for(sent, uri, at) && sent[at].diagnostics.len() == 0) <==> (
            prev.contains(uri) && !curr.contains(uri))
            &&& forall|at: int|
                0 <= at < sent.len() ==> (#[trigger] sent[at]).diagnostics.len() <= 1
        }),
{
    let sent = drained(root, prev, Seq::empty(), diagnostics);
    let curr = files_after(root, Seq::empty(), diagnostics, 0);
    let told = reports(root, diagnostics, 0);
    let cleared = clears(prev, curr, 0);
    lemma_files_after_keeps(root, Seq::empty(), diagnostics, 0, uri);
    lemma_clears(prev, curr, 0, uri);
    assert(sent =~= told + cleared);
    assert forall|at: int| 0 <= at < sent.len() implies (#[trigger] sent[at]).diagnostics.len()
        <= 1 by {
        if at < told.len() {
            assert(sent[at] == told[at]);
        } else {
            assert(sent[at] == cleared[at - told.len()]);
        }
    }
    if exists|at: int| last_for(sent, uri, at) && sent[at].diagnostics.len() == 0 {
        let at = choose|at: int| last_for(sent, uri, at) && sent[at].diagnostics.len() == 0;
        if at < told.len() {
            assert(sent[at] == told[at]);
        } else {
            assert(sent[at] == cleared[at - told.len()]);
        }
    }
    if prev.contains(uri) && !curr.contains(uri) {
        let j = choose|j: int| 0 <= j < prev.len() && prev[j] == uri;
        let k = choose|k: int| 0 <= k < cleared.len() && (#[trigger] cleared[k]).uri == uri;
        assert(sent[told.len() + k] == cleared[k]);
        lemma_has_last(sent, uri, told.len() + k);
        let at = choose|at: int| last_for(sent, uri, at);
        if at < told.len() {
            assert(sent[at] == told[at]);
            assert(false);
        } else {
            assert(sent[at] == cleared[at - told.len()]);
        }
    }
}

/// Where some notification is for a file, one is the last for it.
pub proof fn lemma_has_last(notifications: Seq<PublishView>, uri: Seq<char>, at: int)
    requires
        0 <= at < notifications.len(),
        notifications[at].uri == uri,
    ensures
        exists|last: int| last_for(notifications, uri, last),
    decreases notifications.len() - at,
{
    if exists|j: int| at < j < notifications.len() && (#[trigger] notifications[j]).uri == uri {
        let j = choose|j: int| at < j < notifications.len() && (#[trigger] notifications[j]).uri
            == uri;
        lemma_has_last(notifications, uri, j);
    } else {
        assert(last_for(notifications, uri, at));
    }
}

/// Nothing is cleared where the files are those of the check before.
pub proof fn lemma_nothing_to_clear(files: Seq<Seq<char>>, from: nat)
    ensures
        clears(files, files, from) == Seq::<PublishView>::empty(),
    decreases files.len() - from,
{
    if from < files.len() {
        lemma_nothing_to_clear(files, from + 1);
        assert(files.contains(files[from as int]));
        assert(clears(files, files, from) =~= clears(files, files, from + 1));
    }
}

/// A check that raises the diagnostics of the check before it publishes
/// one notification for each of them, as the check before did, and clears
/// nothing.
pub proof fn lemma_repeated_check(root: Seq<char>, prev: Seq<Seq<char>>, diagnostics: Seq<Diagnostic>)
    ensures
        ({
            let first = drained(root, prev, Seq::empty(), diagnostics);
            let files = files_after(root, Seq::empty(), diagnostics, 0);
            let second = drained(root, files, Seq::empty(), diagnostics);
            &&& second == reports(root, diagnostics, 0)
            &&& first == second + clears(prev, files, 0)
        }),
{
    let files = files_after(root, Seq::empty(), diagnostics, 0);
    lemma_nothing_to_clear(files, 0);
    assert(reports(root, diagnostics, 0) + Seq::<PublishView>::empty() =~= reports(
        root,
        diagnostics,
        0,
    ));
}

} // verus!
