use vstd::prelude::*;

verus! {

/// The characters of each string, in order.
pub open spec fn strings_view(v: Seq<String>) -> Seq<Seq<char>> {
    v.map_values(|s: String| s@)
}

/// Lexicographic order on character sequences, comparing code points. On
/// strings it is the order of `String`'s `Ord`: that compares UTF-8 bytes,
/// and UTF-8 keeps the order of code points.
pub open spec fn chars_le(a: Seq<char>, b: Seq<char>) -> bool
    decreases a.len(),
{
    if a.len() == 0 {
        true
    } else if b.len() == 0 {
        false
    } else if a[0] != b[0] {
        (a[0] as u32) < (b[0] as u32)
    } else {
        chars_le(a.drop_first(), b.drop_first())
    }
}

pub open spec fn is_sorted_chars(s: Seq<Seq<char>>) -> bool {
    forall|i: int, j: int| 0 <= i < j < s.len() ==> chars_le(s[i], s[j])
}

/// Relies on itertools::sorted: it yields the same strings, in ascending
/// order of `String`'s `Ord`.
#[verifier::external_body]
fn sorted_strings(items: &Vec<String>) -> (r: Vec<String>)
    ensures
        strings_view(r@).to_multiset() == strings_view(items@).to_multiset(),
        is_sorted_chars(strings_view(r@)),
{
    itertools::sorted(items.iter().cloned()).collect()
}

/// What one scan (or one transfer) found for one game: a set of files and
/// a set of registry keys, each listed once.
pub struct Outcome {
    found_files: Vec<String>,
    found_registry_keys: Vec<String>,
}

pub struct OutcomeView {
    pub files: Seq<Seq<char>>,
    pub keys: Seq<Seq<char>>,
}

impl OutcomeView {
    /// An outcome with neither a file nor a registry key is no match.
    pub open spec fn is_match(self) -> bool {
        self.files.len() > 0 || self.keys.len() > 0
    }
}

impl View for Outcome {
    type V = OutcomeView;

    closed spec fn view(&self) -> OutcomeView {
        OutcomeView {
            files: strings_view(self.found_files@),
            keys: strings_view(self.found_registry_keys@),
        }
    }
}

impl Outcome {
    #[verifier::type_invariant]
    spec fn lists_sets(&self) -> bool {
        &&& strings_view(self.found_files@).no_duplicates()
        &&& strings_view(self.found_registry_keys@).no_duplicates()
    }

    pub fn new(found_files: Vec<String>, found_registry_keys: Vec<String>) -> (r: Outcome)
        requires
            strings_view(found_files@).no_duplicates(),
            strings_view(found_registry_keys@).no_duplicates(),
        ensures
            r@ == (OutcomeView {
                files: strings_view(found_files@),
                keys: strings_view(found_registry_keys@),
            }),
    {
        Outcome { found_files, found_registry_keys }
    }

    /// The files and the registry keys.
    pub fn into_parts(self) -> (r: (Vec<String>, Vec<String>))
        ensures
            strings_view(r.0@) == self@.files,
            strings_view(r.1@) == self@.keys,
            strings_view(r.0@).no_duplicates(),
            strings_view(r.1@).no_duplicates(),
    {
        proof {
            use_type_invariant(&self);
        }
        (self.found_files, self.found_registry_keys)
    }

    pub fn is_match(&self) -> (r: bool)
        ensures
            r == self@.is_match(),
    {
        self.found_files.len() > 0 || self.found_registry_keys.len() > 0
    }
}

/// One game's line in a result log.
pub struct LogEntry {
    name: String,
    files: Vec<String>,
    registry_keys: Vec<String>,
}

pub struct EntryView {
    pub name: Seq<char>,
    pub outcome: OutcomeView,
}

impl View for LogEntry {
    type V = EntryView;

    closed spec fn view(&self) -> EntryView {
        EntryView {
            name: self.name@,
            outcome: OutcomeView {
                files: strings_view(self.files@),
                keys: strings_view(self.registry_keys@),
            },
        }
    }
}

/// The lines that `display_lines` shows for the files: the text of each
/// file that has one, in order.
pub open spec fn shown_lines(files: Seq<Option<String>>) -> Seq<Seq<char>>
    decreases files.len(),
{
    if files.len() == 0 {
        Seq::empty()
    } else {
        shown_lines(files.drop_last()) + match files.last() {
            Some(f) => seq![f@],
            None => Seq::empty(),
        }
    }
}

/// The body of an entry as it is displayed: the files that have a text to
/// show (a file whose text could not be worked out is `None` and left out),
/// then the registry keys.
pub fn display_lines(files: &Vec<Option<String>>, keys: &Vec<String>) -> (r: Vec<String>)
    ensures
        strings_view(r@) == shown_lines(files@) + strings_view(keys@),
{
    let mut r: Vec<String> = Vec::new();
    let mut i: usize = 0;
    while i < files.len()
        invariant
            i <= files@.len(),
            strings_view(r@) == shown_lines(files@.subrange(0, i as int)),
        decreases files@.len() - i,
    {
        match &files[i] {
            Some(f) => r.push(f.clone()),
            None => {},
        }
        proof {
            let sub = files@.subrange(0, i + 1);
            assert(sub.drop_last() =~= files@.subrange(0, i as int));
            assert(strings_view(r@) =~= shown_lines(sub));
        }
        i = i + 1;
    }
    assert(files@.subrange(0, i as int) =~= files@);
    let mut k: usize = 0;
    let ghost shown = strings_view(r@);
    while k < keys.len()
        invariant
            k <= keys@.len(),
            strings_view(r@) == shown + strings_view(keys@.subrange(0, k as int)),
        decreases keys@.len() - k,
    {
        let ghost before = r@;
        r.push(keys[k].clone());
        assert(strings_view(r@) =~= strings_view(before).push(keys@[k as int]@));
        assert(strings_view(keys@.subrange(0, k + 1)) =~= strings_view(
            keys@.subrange(0, k as int),
        ).push(keys@[k as int]@));
        k = k + 1;
        assert(strings_view(r@) =~= shown + strings_view(keys@.subrange(0, k as int)));
    }
    assert(keys@.subrange(0, k as int) =~= keys@);
    r
}

impl LogEntry {
    pub fn name(&self) -> (r: &String)
        ensures
            r@ == self@.name,
    {
        &self.name
    }

    /// The files found, in ascending order.
    pub fn sorted_files(&self) -> (r: Vec<String>)
        ensures
            strings_view(r@).to_multiset() == self@.outcome.files.to_multiset(),
            is_sorted_chars(strings_view(r@)),
    {
        sorted_strings(&self.files)
    }

    /// The registry keys found, in ascending order.
    pub fn sorted_registry_keys(&self) -> (r: Vec<String>)
        ensures
            strings_view(r@).to_multiset() == self@.outcome.keys.to_multiset(),
            is_sorted_chars(strings_view(r@)),
    {
        sorted_strings(&self.registry_keys)
    }

    /// The body of the entry where files are shown as found: the sorted
    /// files, then the sorted registry keys.
    pub fn lines(&self) -> (r: Vec<String>)
        ensures
            exists|f: Seq<Seq<char>>, k: Seq<Seq<char>>|
                strings_view(r@) == f + k && f.to_multiset() == self@.outcome.files.to_multiset()
                    && is_sorted_chars(f) && k.to_multiset() == self@.outcome.keys.to_multiset()
                    && is_sorted_chars(k),
    {
        let files = self.sorted_files();
        let keys = self.sorted_registry_keys();
        let mut shown: Vec<Option<String>> = Vec::new();
        let mut i: usize = 0;
        while i < files.len()
            invariant
                i <= files@.len(),
                shown@.len() == i,
                forall|j: int| 0 <= j < i ==> shown@[j] == Some(files@[j]),
            decreases files@.len() - i,
        {
            shown.push(Some(files[i].clone()));
            i = i + 1;
        }
        proof {
            lemma_all_shown(shown@, files@);
        }
        let r = display_lines(&shown, &keys);
        assert(strings_view(r@) == strings_view(files@) + strings_view(keys@));
        r
    }
}

proof fn lemma_all_shown(shown: Seq<Option<String>>, files: Seq<String>)
    requires
        shown.len() == files.len(),
        forall|j: int| 0 <= j < files.len() ==> shown[j] == Some(files[j]),
    ensures
        shown_lines(shown) == strings_view(files),
    decreases files.len(),
{
    if files.len() > 0 {
        lemma_all_shown(shown.drop_last(), files.drop_last());
        assert(strings_view(files) =~= strings_view(files.drop_last()) + seq![files.last()@]);
    } else {
        assert(strings_view(files) =~= Seq::<Seq<char>>::empty());
    }
}

/// The game names of a log's entries, in order.
pub open spec fn entry_names(entries: Seq<EntryView>) -> Seq<Seq<char>> {
    entries.map_values(|e: EntryView| e.name)
}

/// The names that came with at least one matching outcome in a history of
/// appends (each name paired with whether its outcome matched).
pub open spec fn matched_names(history: Seq<(Seq<char>, bool)>) -> Set<Seq<char>> {
    Set::new(|n: Seq<char>| exists|i: int| 0 <= i < history.len() && history[i] == (n, true))
}

/// The entries after one append: an outcome that is no match changes
/// nothing; a match replaces the entry of the same name, or else comes last.
pub open spec fn spec_append(entries: Seq<EntryView>, name: Seq<char>, outcome: OutcomeView) -> Seq<
    EntryView,
> {
    if !outcome.is_match() {
        entries
    } else if entry_names(entries).contains(name) {
        entries.update(
            choose|j: int| 0 <= j < entries.len() && entries[j].name == name,
            EntryView { name, outcome },
        )
    } else {
        entries.push(EntryView { name, outcome })
    }
}

/// The outcomes of one screen's run, at most one per game, each with at
/// least one file or registry key.
pub struct ResultLog {
    entries: Vec<LogEntry>,
    appended: Ghost<Seq<(Seq<char>, bool)>>,
}

impl View for ResultLog {
    type V = Seq<EntryView>;

    closed spec fn view(&self) -> Seq<EntryView> {
        self.entries@.map_values(|e: LogEntry| e@)
    }
}

impl ResultLog {
    /// Every append since the log was made or last cleared: the game's name
    /// and whether its outcome matched.
    pub closed spec fn history(&self) -> Seq<(Seq<char>, bool)> {
        self.appended@
    }

    pub closed spec fn wf(&self) -> bool {
        &&& forall|i: int| 0 <= i < self@.len() ==> #[trigger] self@[i].outcome.is_match()
        &&& forall|i: int|
            0 <= i < self@.len() ==> (#[trigger] self@[i].outcome).files.no_duplicates()
                && self@[i].outcome.keys.no_duplicates()
        &&& entry_names(self@).no_duplicates()
        &&& entry_names(self@).to_set() == matched_names(self.history())
    }

    pub fn new() -> (r: ResultLog)
        ensures
            r.wf(),
            r@ == Seq::<EntryView>::empty(),
            r.history() == Seq::<(Seq<char>, bool)>::empty(),
    {
        let r = ResultLog { entries: Vec::new(), appended: Ghost(Seq::empty()) };
        assert(r@ =~= Seq::<EntryView>::empty());
        assert(entry_names(r@).to_set() =~= matched_names(r.history()));
        r
    }

    /// Empties the log, as at the start of a run.
    pub fn clear(&mut self)
        ensures
            final(self).wf(),
            final(self)@ == Seq::<EntryView>::empty(),
            final(self).history() == Seq::<(Seq<char>, bool)>::empty(),
    {
        *self = ResultLog::new();
    }

    /// The number of games in the log.
    pub fn count(&self) -> (n: usize)
        ensures
            n == self@.len(),
    {
        self.entries.len()
    }

    pub fn entry(&self, index: usize) -> (r: &LogEntry)
        requires
            index < self@.len(),
        ensures
            r@ == self@[index as int],
    {
        &self.entries[index]
    }

    /// The position of the entry for `name`, if there is one.
    pub fn find(&self, name: &String) -> (r: Option<usize>)
        ensures
            r is None ==> !entry_names(self@).contains(name@),
            r matches Some(j) ==> j < self@.len() && self@[j as int].name == name@,
    {
        let mut i: usize = 0;
        while i < self.entries.len()
            invariant
                i <= self@.len(),
                forall|j: int| 0 <= j < i ==> self@[j].name != name@,
            decreases self@.len() - i,
        {
            if self.entries[i].name == *name {
                return Some(i);
            }
            i = i + 1;
        }
        proof {
            if entry_names(self@).contains(name@) {
                let j = choose|j: int|
                    0 <= j < entry_names(self@).len() && entry_names(self@)[j] == name@;
                assert(self@[j].name == name@);
            }
        }
        None
    }

    /// Records what a task reported for a game. An outcome that is no match
    /// is dropped; otherwise it replaces the game's entry or adds one.
    pub fn append(&mut self, name: String, outcome: Outcome)
        requires
            old(self).wf(),
        ensures
            final(self).wf(),
            final(self)@ == spec_append(old(self)@, name@, outcome@),
            final(self).history() == old(self).history().push((name@, outcome@.is_match())),
    {
        let ghost old_names = entry_names(self@);
        let ghost nm = name@;
        let ghost oc = outcome@;
        let ghost matched = oc.is_match();
        self.appended = Ghost(self.appended@.push((nm, matched)));
        let ghost hist = self.appended@;
        if !outcome.is_match() {
            assert(matched_names(hist) =~= matched_names(old(self).history())) by {
                assert forall|n: Seq<char>| matched_names(hist).contains(n) implies matched_names(
                    old(self).history(),
                ).contains(n) by {
                    let i = choose|i: int| 0 <= i < hist.len() && hist[i] == (n, true);
                    assert(i < hist.len() - 1);
                    assert(old(self).history()[i] == (n, true));
                }
                assert forall|n: Seq<char>| matched_names(old(self).history()).contains(n) implies matched_names(
                    hist,
                ).contains(n) by {
                    let i = choose|i: int|
                        0 <= i < old(self).history().len() && old(self).history()[i] == (n, true);
                    assert(hist[i] == (n, true));
                }
            }
            return;
        }
        assert(matched_names(hist) =~= matched_names(old(self).history()).insert(nm)) by {
            assert(hist[hist.len() - 1] == (nm, true));
            assert forall|n: Seq<char>| matched_names(hist).contains(n) implies matched_names(
                old(self).history(),
            ).insert(nm).contains(n) by {
                let i = choose|i: int| 0 <= i < hist.len() && hist[i] == (n, true);
                if i < hist.len() - 1 {
                    assert(old(self).history()[i] == (n, true));
                }
            }
            assert forall|n: Seq<char>| matched_names(old(self).history()).contains(n) implies matched_names(
                hist,
            ).contains(n) by {
                let i = choose|i: int|
                    0 <= i < old(self).history().len() && old(self).history()[i] == (n, true);
                assert(hist[i] == (n, true));
            }
        }
        let found = self.find(&name);
        let (files, registry_keys) = outcome.into_parts();
        let entry = LogEntry { name, files, registry_keys };
        assert(entry@ == EntryView { name: nm, outcome: oc });
        match found {
            Some(j) => {
                proof {
                    assert(old_names[j as int] == nm);
                    let c = choose|c: int| 0 <= c < old(self)@.len() && old(self)@[c].name == nm;
                    assert(old_names[c] == nm);
                    assert(c == j);
                }
                self.entries.set(j, entry);
                assert(self@ =~= old(self)@.update(j as int, EntryView { name: nm, outcome: oc }));
                assert(entry_names(self@) =~= old_names);
                assert(old_names.contains(nm));
                assert(old_names.to_set().contains(nm));
                assert(matched_names(hist) =~= old_names.to_set());
            },
            None => {
                self.entries.push(entry);
                assert(self@ =~= old(self)@.push(EntryView { name: nm, outcome: oc }));
                assert(entry_names(self@) =~= old_names.push(nm));
                assert(old_names.push(nm) =~= old_names + seq![nm]);
                proof {
                    Seq::lemma_to_set_insert_commutes(old_names, nm);
                }
            },
        }
    }

    /// The names of the games in the log, in ascending order.
    pub fn sorted_names(&self) -> (r: Vec<String>)
        ensures
            strings_view(r@).to_multiset() == entry_names(self@).to_multiset(),
            is_sorted_chars(strings_view(r@)),
    {
        let mut names: Vec<String> = Vec::new();
        let mut i: usize = 0;
        while i < self.entries.len()
            invariant
                i <= self@.len(),
                names@.len() == i,
                forall|j: int| 0 <= j < i ==> names@[j]@ == self@[j].name,
            decreases self@.len() - i,
        {
            names.push(self.entries[i].name.clone());
            i = i + 1;
        }
        assert(strings_view(names@) =~= entry_names(self@));
        sorted_strings(&names)
    }
}

/// No entry of a log has both an empty file list and an empty registry key
/// list.
pub proof fn lemma_entries_are_matches(log: &ResultLog)
    requires
        log.wf(),
    ensures
        forall|i: int| 0 <= i < log@.len() ==> log@[i].outcome.files.len() > 0 || log@[i].outcome.keys.len() > 0,
{
    assert forall|i: int| 0 <= i < log@.len() implies log@[i].outcome.files.len() > 0
        || log@[i].outcome.keys.len() > 0 by {
        assert(log@[i].outcome.is_match());
    }
}

/// The number of entries of a log is the number of distinct game names that
/// came with a matching outcome since the log was made or last cleared.
pub proof fn lemma_count_is_distinct_matches(log: &ResultLog)
    requires
        log.wf(),
    ensures
        matched_names(log.history()).finite(),
        log@.len() == matched_names(log.history()).len(),
{
    entry_names(log@).unique_seq_to_set();
}

} // verus!
