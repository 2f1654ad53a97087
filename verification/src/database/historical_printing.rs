//! Historical printing admission. Catalog records come from host-owned set
//! data; requests supply only printing IDs, never edition/language claims.

use vstd::prelude::*;
use vstd::string::*;
use crate::database::card_database::CardDatabase;
use crate::game::deck_validation::DeckCompatibilityRequest;
use crate::owned::{clone_opt_string, clone_strings, strings_view};
use crate::text::{
    eq_ignore_ascii_case, lemma_eq_ignore_ascii_case_symmetric, str_eq, str_eq_ignore_ascii_case,
};
use crate::types::custom_format::{
    CustomFormatRules, FormatLegality, HistoricalPrintingPolicy, LegacyRuleSet,
};
use crate::types::format::{FormatConfig, SelectedFormat};

verus! {

/// The subset of a trusted printing record needed by the Swedish rules.
#[derive(Clone, Debug, PartialEq, Eq)]
pub struct HistoricalPrinting {
    pub card_name: String,
    pub set_code: String,
    pub language: String,
}

/// Printing records by printing ID. An ID maps to at most one record:
/// inserting an ID that is present replaces its record.
pub struct PrintingCatalog {
    entries: Vec<(String, HistoricalPrinting)>,
}

/// `i` is the first entry stored under `id`.
pub open spec fn is_first_entry(
    entries: Seq<(String, HistoricalPrinting)>,
    id: Seq<char>,
    i: int,
) -> bool {
    &&& 0 <= i < entries.len()
    &&& entries[i].0@ == id
    &&& forall|j: int| 0 <= j < i ==> (#[trigger] entries[j]).0@ != id
}

/// The entry that answers for `id`, if any.
pub open spec fn entry_index(entries: Seq<(String, HistoricalPrinting)>, id: Seq<char>) -> Option<
    int,
> {
    if exists|i: int| is_first_entry(entries, id, i) {
        Some(choose|i: int| is_first_entry(entries, id, i))
    } else {
        None
    }
}

proof fn lemma_first_entry_unique(
    entries: Seq<(String, HistoricalPrinting)>,
    id: Seq<char>,
    i: int,
    k: int,
)
    requires
        is_first_entry(entries, id, i),
        is_first_entry(entries, id, k),
    ensures
        i == k,
{
    if i < k {
        assert(entries[i].0@ != id);
    } else if k < i {
        assert(entries[k].0@ != id);
    }
}

proof fn lemma_entry_index_is(entries: Seq<(String, HistoricalPrinting)>, id: Seq<char>, i: int)
    requires
        is_first_entry(entries, id, i),
    ensures
        entry_index(entries, id) == Some(i),
{
    let k = choose|k: int| is_first_entry(entries, id, k);
    lemma_first_entry_unique(entries, id, i, k);
}

proof fn lemma_entry_index_none(entries: Seq<(String, HistoricalPrinting)>, id: Seq<char>)
    requires
        forall|j: int| 0 <= j < entries.len() ==> (#[trigger] entries[j]).0@ != id,
    ensures
        entry_index(entries, id) is None,
{
}

impl View for PrintingCatalog {
    type V = Map<Seq<char>, HistoricalPrinting>;

    closed spec fn view(&self) -> Map<Seq<char>, HistoricalPrinting> {
        Map::new(
            |id: Seq<char>| entry_index(self.entries@, id) is Some,
            |id: Seq<char>| self.entries@[entry_index(self.entries@, id)->0].1,
        )
    }
}

impl PrintingCatalog {
    /// An empty catalog.
    pub fn new() -> (r: PrintingCatalog)
        ensures
            r@ == Map::<Seq<char>, HistoricalPrinting>::empty(),
    {
        let r = PrintingCatalog { entries: Vec::new() };
        assert(r@ =~= Map::<Seq<char>, HistoricalPrinting>::empty());
        r
    }

    fn find(&self, id: &str) -> (r: Option<usize>)
        ensures
            match r {
                Some(i) => entry_index(self.entries@, id@) == Some(i as int),
                None => entry_index(self.entries@, id@) is None,
            },
    {
        let mut i: usize = 0;
        while i < self.entries.len()
            invariant
                i <= self.entries.len(),
                forall|j: int| 0 <= j < i ==> (#[trigger] self.entries@[j]).0@ != id@,
            decreases self.entries.len() - i,
        {
            if str_eq(self.entries[i].0.as_str(), id) {
                proof {
                    lemma_entry_index_is(self.entries@, id@, i as int);
                }
                return Some(i);
            }
            i = i + 1;
        }
        None
    }

    /// The record stored under a printing ID.
    pub fn get(&self, id: &str) -> (r: Option<&HistoricalPrinting>)
        ensures
            match r {
                Some(p) => self@.contains_key(id@) && self@[id@] == *p,
                None => !self@.contains_key(id@),
            },
    {
        match self.find(id) {
            Some(i) => Some(&self.entries[i].1),
            None => None,
        }
    }

    /// Store a record under a printing ID, replacing any record it had.
    pub fn insert(&mut self, id: String, printing: HistoricalPrinting)
        ensures
            final(self)@ == old(self)@.insert(id@, printing),
    {
        let ghost old_entries = self.entries@;
        match self.find(id.as_str()) {
            Some(i) => {
                let ghost key = id@;
                self.entries.set(i, (id, printing));
                proof {
                    let new_entries = self.entries@;
                    assert forall|k: Seq<char>|
                        entry_index(new_entries, k) == entry_index(old_entries, k) by {
                        if let Some(m) = entry_index(old_entries, k) {
                            assert(is_first_entry(new_entries, k, m)) by {
                                assert forall|j: int| 0 <= j < m implies (
                                #[trigger] new_entries[j]).0@ != k by {
                                    assert(old_entries[j].0@ != k);
                                }
                            }
                            lemma_entry_index_is(new_entries, k, m);
                        } else {
                            assert forall|j: int| 0 <= j < new_entries.len() implies (
                            #[trigger] new_entries[j]).0@ != k by {
                                if old_entries[j].0@ == k {
                                    lemma_least_entry(old_entries, k, j);
                                }
                            }
                        }
                    }
                    assert(self@ =~= old(self)@.insert(key, printing));
                }
            },
            None => {
                let ghost key = id@;
                self.entries.push((id, printing));
                proof {
                    let new_entries = self.entries@;
                    let n = old_entries.len() as int;
                    assert forall|k: Seq<char>| k != key implies entry_index(new_entries, k)
                        == entry_index(old_entries, k) by {
                        if let Some(m) = entry_index(old_entries, k) {
                            assert(is_first_entry(new_entries, k, m)) by {
                                assert forall|j: int| 0 <= j < m implies (
                                #[trigger] new_entries[j]).0@ != k by {
                                    assert(old_entries[j].0@ != k);
                                }
                            }
                            lemma_entry_index_is(new_entries, k, m);
                        } else {
                            assert forall|j: int| 0 <= j < new_entries.len() implies (
                            #[trigger] new_entries[j]).0@ != k by {
                                if j < n && old_entries[j].0@ == k {
                                    lemma_least_entry(old_entries, k, j);
                                }
                            }
                        }
                    }
                    assert forall|j: int| 0 <= j < n implies (#[trigger] new_entries[j]).0@
                        != key by {
                        if old_entries[j].0@ == key {
                            lemma_least_entry(old_entries, key, j);
                        }
                    }
                    assert(is_first_entry(new_entries, key, n));
                    lemma_entry_index_is(new_entries, key, n);
                    assert(self@ =~= old(self)@.insert(key, printing));
                }
            },
        }
    }
}

/// Some entry is stored under `id` at `j`, so a first one exists.
proof fn lemma_least_entry(entries: Seq<(String, HistoricalPrinting)>, id: Seq<char>, j: int)
    requires
        0 <= j < entries.len(),
        entries[j].0@ == id,
    ensures
        exists|b: int| is_first_entry(entries, id, b),
    decreases j,
{
    if forall|i: int| 0 <= i < j ==> (#[trigger] entries[i]).0@ != id {
        assert(is_first_entry(entries, id, j));
    } else {
        let i = choose|i: int| 0 <= i < j && (#[trigger] entries[i]).0@ == id;
        lemma_least_entry(entries, id, i);
    }
}

/// The error when the printing IDs do not pair one-to-one with the copies.
pub const PRINTING_COUNT_MISMATCH: &'static str = "A selected printing ID is required for every submitted card copy";

/// The printing policy of a format: its custom rules' setting, or `Any`
/// when it has no custom rules.
pub open spec fn format_printing_policy(config: FormatConfig) -> HistoricalPrintingPolicy {
    match config.custom_rules {
        Some(rules) => rules.legality.legacy.printing_policy,
        None => HistoricalPrintingPolicy::Any,
    }
}

/// Alpha, Beta, Unlimited, Arabian Nights, Antiquities, Legends, The Dark and
/// Summer Magic, matched ignoring ASCII case.
pub open spec fn swedish_original_edition(set_code: Seq<char>) -> bool {
    ||| eq_ignore_ascii_case("LEA"@, set_code)
    ||| eq_ignore_ascii_case("LEB"@, set_code)
    ||| eq_ignore_ascii_case("2ED"@, set_code)
    ||| eq_ignore_ascii_case("ARN"@, set_code)
    ||| eq_ignore_ascii_case("ATQ"@, set_code)
    ||| eq_ignore_ascii_case("LEG"@, set_code)
    ||| eq_ignore_ascii_case("DRK"@, set_code)
    ||| eq_ignore_ascii_case("SUM"@, set_code)
}

/// Whether a policy admits a printing: `Any` admits every printing;
/// `SwedishOriginal` admits English printings of the eight original editions.
pub open spec fn printing_allowed(policy: HistoricalPrintingPolicy, p: HistoricalPrinting) -> bool {
    match policy {
        HistoricalPrintingPolicy::Any => true,
        HistoricalPrintingPolicy::SwedishOriginal => swedish_original_edition(p.set_code@)
            && eq_ignore_ascii_case(p.language@, "en"@),
    }
}

/// The printing is of the submitted card: both names look up faces, and the
/// faces have the same name.
pub open spec fn printing_names_card(db: CardDatabase, name: Seq<char>, p: HistoricalPrinting) -> bool {
    match (db.face_named(name), db.face_named(p.card_name@)) {
        (Some(submitted), Some(printed)) => submitted.name@ == printed.name@,
        _ => false,
    }
}

/// The database lists the printing's set among the submitted card's editions.
pub open spec fn edition_known(db: CardDatabase, name: Seq<char>, p: HistoricalPrinting) -> bool {
    match db.printings_named(name) {
        Some(sets) => lists_set(sets, p.set_code@),
        None => false,
    }
}

/// Some set code in `sets` equals `set_code` up to ASCII case.
pub open spec fn lists_set(sets: Seq<String>, set_code: Seq<char>) -> bool {
    exists|k: int| 0 <= k < sets.len() && eq_ignore_ascii_case(#[trigger] sets[k]@, set_code)
}

/// A catalog printing is legal for a submitted copy.
pub open spec fn printing_legal_for(
    db: CardDatabase,
    policy: HistoricalPrintingPolicy,
    name: Seq<char>,
    p: HistoricalPrinting,
) -> bool {
    &&& printing_names_card(db, name, p)
    &&& edition_known(db, name, p)
    &&& printing_allowed(policy, p)
}

pub open spec fn unknown_printing_message(id: Seq<char>) -> Seq<char> {
    "Unknown selected printing: "@ + id
}

pub open spec fn illegal_printing_message(id: Seq<char>, name: Seq<char>) -> Seq<char> {
    "Illegal selected printing "@ + id + " for "@ + name
}

/// What is wrong with one submitted copy and its printing ID, if anything.
pub open spec fn copy_error(
    db: CardDatabase,
    catalog: Map<Seq<char>, HistoricalPrinting>,
    policy: HistoricalPrintingPolicy,
    name: Seq<char>,
    id: Seq<char>,
) -> Option<Seq<char>> {
    if !catalog.contains_key(id) {
        Some(unknown_printing_message(id))
    } else if printing_legal_for(db, policy, name, catalog[id]) {
        None
    } else {
        Some(illegal_printing_message(id, name))
    }
}

/// The errors of the first `n` copies, in order.
pub open spec fn printing_errors(
    db: CardDatabase,
    catalog: Map<Seq<char>, HistoricalPrinting>,
    policy: HistoricalPrintingPolicy,
    names: Seq<Seq<char>>,
    ids: Seq<Seq<char>>,
    n: nat,
) -> Seq<Seq<char>>
    decreases n,
{
    if n == 0 {
        Seq::empty()
    } else {
        let before = printing_errors(db, catalog, policy, names, ids, (n - 1) as nat);
        match copy_error(db, catalog, policy, names[n - 1], ids[n - 1]) {
            Some(e) => before.push(e),
            None => before,
        }
    }
}

/// The same format with its printing requirement discharged and every other
/// rule kept.
pub open spec fn discharge_printing_policy(config: FormatConfig) -> FormatConfig {
    match config.custom_rules {
        Some(rules) => FormatConfig {
            custom_rules: Some(
                CustomFormatRules {
                    id: rules.id,
                    legality: FormatLegality {
                        legacy: LegacyRuleSet {
                            printing_policy: HistoricalPrintingPolicy::Any,
                            ..rules.legality.legacy
                        },
                    },
                },
            ),
        },
        None => config,
    }
}

/// `c` submits the same deck as `r` and selects `format`.
pub open spec fn same_deck_under(
    c: DeckCompatibilityRequest,
    r: DeckCompatibilityRequest,
    format: FormatConfig,
) -> bool {
    &&& c.main_deck@ == r.main_deck@
    &&& c.sideboard@ == r.sideboard@
    &&& c.commander@ == r.commander@
    &&& c.companion == r.companion
    &&& c.signature_spell == r.signature_spell
    &&& c.planar_deck@ == r.planar_deck@
    &&& c.scheme_deck@ == r.scheme_deck@
    &&& c.player_count == r.player_count
    &&& c.summary_only == r.summary_only
    &&& c.selected_format matches Some(SelectedFormat::Resolved(f)) && *f == format
}

fn is_swedish_original_edition(set_code: &str) -> (r: bool)
    ensures
        r == swedish_original_edition(set_code@),
{
    str_eq_ignore_ascii_case("LEA", set_code) || str_eq_ignore_ascii_case("LEB", set_code)
        || str_eq_ignore_ascii_case("2ED", set_code) || str_eq_ignore_ascii_case("ARN", set_code)
        || str_eq_ignore_ascii_case("ATQ", set_code) || str_eq_ignore_ascii_case("LEG", set_code)
        || str_eq_ignore_ascii_case("DRK", set_code) || str_eq_ignore_ascii_case("SUM", set_code)
}

fn lists_edition(sets: &Vec<String>, set_code: &str) -> (r: bool)
    ensures
        r == lists_set(sets@, set_code@),
{
    let mut i: usize = 0;
    while i < sets.len()
        invariant
            i <= sets.len(),
            forall|k: int| 0 <= k < i ==> !eq_ignore_ascii_case(#[trigger] sets@[k]@, set_code@),
        decreases sets.len() - i,
    {
        if str_eq_ignore_ascii_case(sets[i].as_str(), set_code) {
            return true;
        }
        i = i + 1;
    }
    false
}

fn check_copy(
    db: &CardDatabase,
    catalog: &PrintingCatalog,
    policy: HistoricalPrintingPolicy,
    name: &String,
    id: &String,
) -> (r: Option<String>)
    ensures
        match r {
            Some(e) => copy_error(*db, catalog@, policy, name@, id@) == Some(e@),
            None => copy_error(*db, catalog@, policy, name@, id@) is None,
        },
{
    match catalog.get(id.as_str()) {
        None => {
            let mut message = String::from_str("Unknown selected printing: ");
            message.append(id.as_str());
            Some(message)
        },
        Some(printing) => {
            let matches_card = match (
                db.get_face_by_name(name.as_str()),
                db.get_face_by_name(printing.card_name.as_str()),
            ) {
                (Some(submitted), Some(printed)) => submitted.name == printed.name,
                _ => false,
            };
            let known_edition = match db.printings_for(name.as_str()) {
                Some(sets) => lists_edition(sets, printing.set_code.as_str()),
                None => false,
            };
            let allowed = match policy {
                HistoricalPrintingPolicy::Any => true,
                HistoricalPrintingPolicy::SwedishOriginal => is_swedish_original_edition(
                    printing.set_code.as_str(),
                ) && str_eq_ignore_ascii_case(printing.language.as_str(), "en"),
            };
            if !matches_card || !known_edition || !allowed {
                let mut message = String::from_str("Illegal selected printing ");
                message.append(id.as_str());
                message.append(" for ");
                message.append(name.as_str());
                Some(message)
            } else {
                None
            }
        },
    }
}

fn discharged_format(config: FormatConfig) -> (r: FormatConfig)
    ensures
        r == discharge_printing_policy(config),
{
    match config.custom_rules {
        Some(rules) => FormatConfig {
            custom_rules: Some(
                CustomFormatRules {
                    id: rules.id,
                    legality: FormatLegality {
                        legacy: LegacyRuleSet {
                            damage_timing: rules.legality.legacy.damage_timing,
                            printing_policy: HistoricalPrintingPolicy::Any,
                            card_text: rules.legality.legacy.card_text,
                        },
                    },
                },
            ),
        },
        None => FormatConfig { custom_rules: None },
    }
}

/// Validate every submitted copy's selected printing, then apply the format's
/// remaining deck checks (`name_gate`: card pool, bans, restrictions, deck
/// size, sideboard). IDs follow main-deck order, then sideboard, commander,
/// companion, signature spell, planar and scheme. Missing/extra IDs and
/// catalog misses fail closed; basic lands have no printing exemption. The
/// remaining checks see a copy of the request whose format has only the
/// printing requirement discharged; the caller keeps the original format.
pub fn validate_deck_with_printings<F: Fn(&DeckCompatibilityRequest) -> Result<(), Vec<String>>>(
    db: &CardDatabase,
    request: &DeckCompatibilityRequest,
    printing_ids: &[String],
    catalog: &PrintingCatalog,
    name_gate: F,
) -> (r: Result<(), Vec<String>>)
    requires
        forall|c: &DeckCompatibilityRequest| #[trigger] name_gate.requires((c,)),
    ensures
        match request.selected_format {
            None => name_gate.ensures((request,), r),
            Some(SelectedFormat::Resolved(config)) => {
                let policy = format_printing_policy(*config);
                let names = strings_view(request.submitted_copies());
                let ids = strings_view(printing_ids@);
                let errors = printing_errors(*db, catalog@, policy, names, ids, names.len());
                if policy == HistoricalPrintingPolicy::Any {
                    name_gate.ensures((request,), r)
                } else if names.len() != ids.len() {
                    r matches Err(e) && strings_view(e@) == seq![PRINTING_COUNT_MISMATCH@]
                } else if errors.len() > 0 {
                    r matches Err(e) && strings_view(e@) == errors
                } else {
                    exists|c: DeckCompatibilityRequest|
                        same_deck_under(c, *request, discharge_printing_policy(*config))
                            && #[trigger] name_gate.ensures((&c,), r)
                }
            },
        },
{
    let config = match &request.selected_format {
        None => {
            return name_gate(request);
        },
        Some(SelectedFormat::Resolved(config)) => (**config).clone(),
    };
    let policy = match &config.custom_rules {
        Some(rules) => rules.legality.legacy.printing_policy,
        None => HistoricalPrintingPolicy::Any,
    };
    if policy == HistoricalPrintingPolicy::Any {
        return name_gate(request);
    }
    let names = request.submitted_copy_names();
    let ghost names_v = strings_view(names@);
    let ghost ids_v = strings_view(printing_ids@);
    if names.len() != printing_ids.len() {
        let mut errors: Vec<String> = Vec::new();
        errors.push(String::from_str(PRINTING_COUNT_MISMATCH));
        assert(strings_view(errors@) =~= seq![PRINTING_COUNT_MISMATCH@]);
        return Err(errors);
    }
    let mut errors: Vec<String> = Vec::new();
    let mut i: usize = 0;
    while i < names.len()
        invariant
            i <= names.len(),
            names.len() == printing_ids@.len(),
            names_v == strings_view(names@),
            ids_v == strings_view(printing_ids@),
            strings_view(errors@) == printing_errors(*db, catalog@, policy, names_v, ids_v, i as nat),
        decreases names.len() - i,
    {
        let found = check_copy(db, catalog, policy, &names[i], &printing_ids[i]);
        let ghost before = errors@;
        match found {
            Some(message) => {
                errors.push(message);
                assert(strings_view(errors@) =~= strings_view(before).push(errors@.last()@));
            },
            None => {},
        }
        i = i + 1;
    }
    if errors.len() > 0 {
        return Err(errors);
    }
    let discharged = discharged_format(config);
    let checked = DeckCompatibilityRequest {
        main_deck: clone_strings(&request.main_deck),
        sideboard: clone_strings(&request.sideboard),
        commander: clone_strings(&request.commander),
        companion: clone_opt_string(&request.companion),
        signature_spell: clone_opt_string(&request.signature_spell),
        planar_deck: clone_strings(&request.planar_deck),
        scheme_deck: clone_strings(&request.scheme_deck),
        selected_format: Some(SelectedFormat::Resolved(Box::new(discharged))),
        player_count: request.player_count,
        summary_only: request.summary_only,
    };
    let r = name_gate(&checked);
    assert(same_deck_under(checked, *request, discharge_printing_policy(config)));
    r
}

/// The printing check reports nothing exactly when every copy's printing
/// ID is in the catalog and names a legal printing of that card: there is no
/// exemption, basic lands included.
pub proof fn lemma_no_printing_errors_iff_all_legal(
    db: CardDatabase,
    catalog: Map<Seq<char>, HistoricalPrinting>,
    policy: HistoricalPrintingPolicy,
    names: Seq<Seq<char>>,
    ids: Seq<Seq<char>>,
    n: nat,
)
    requires
        n <= names.len(),
        n <= ids.len(),
    ensures
        printing_errors(db, catalog, policy, names, ids, n).len() == 0 <==> forall|i: int|
            0 <= i < n ==> {
                &&& catalog.contains_key(#[trigger] ids[i])
                &&& printing_legal_for(db, policy, names[i], catalog[ids[i]])
            },
    decreases n,
{
    if n > 0 {
        lemma_no_printing_errors_iff_all_legal(db, catalog, policy, names, ids, (n - 1) as nat);
        let before = printing_errors(db, catalog, policy, names, ids, (n - 1) as nat);
        if printing_errors(db, catalog, policy, names, ids, n).len() == 0 {
            assert(copy_error(db, catalog, policy, names[n - 1], ids[n - 1]) is None) by {
                if let Some(e) = copy_error(db, catalog, policy, names[n - 1], ids[n - 1]) {
                    assert(before.push(e).len() > 0);
                }
            }
        } else {
            if before.len() == 0 {
                assert(copy_error(db, catalog, policy, names[n - 1], ids[n - 1]) is Some);
                let i = n - 1;
                assert(!(catalog.contains_key(ids[i]) && printing_legal_for(
                    db,
                    policy,
                    names[i],
                    catalog[ids[i]],
                )));
            }
        }
    }
}

/// Under a printing policy, a deck the printing check admits has, for every
/// submitted copy, a catalog printing of that same card, in an edition the
/// database lists for it, that the policy allows.
pub proof fn lemma_admitted_copies_have_legal_printings(
    db: CardDatabase,
    request: DeckCompatibilityRequest,
    printing_ids: Seq<String>,
    catalog: Map<Seq<char>, HistoricalPrinting>,
    policy: HistoricalPrintingPolicy,
)
    requires
        strings_view(request.submitted_copies()).len() == strings_view(printing_ids).len(),
        printing_errors(
            db,
            catalog,
            policy,
            strings_view(request.submitted_copies()),
            strings_view(printing_ids),
            strings_view(request.submitted_copies()).len(),
        ).len() == 0,
    ensures
        forall|i: int|
            0 <= i < printing_ids.len() ==> {
                &&& catalog.contains_key(#[trigger] printing_ids[i]@)
                &&& printing_names_card(
                    db,
                    request.submitted_copies()[i]@,
                    catalog[printing_ids[i]@],
                )
                &&& edition_known(db, request.submitted_copies()[i]@, catalog[printing_ids[i]@])
                &&& printing_allowed(policy, catalog[printing_ids[i]@])
            },
{
    let names = strings_view(request.submitted_copies());
    let ids = strings_view(printing_ids);
    lemma_no_printing_errors_iff_all_legal(db, catalog, policy, names, ids, names.len());
    assert forall|i: int| 0 <= i < printing_ids.len() implies {
        &&& catalog.contains_key(#[trigger] printing_ids[i]@)
        &&& printing_names_card(db, request.submitted_copies()[i]@, catalog[printing_ids[i]@])
        &&& edition_known(db, request.submitted_copies()[i]@, catalog[printing_ids[i]@])
        &&& printing_allowed(policy, catalog[printing_ids[i]@])
    } by {
        assert(ids[i] == printing_ids[i]@);
        assert(names[i] == request.submitted_copies()[i]@);
    }
}

/// Discharging the printing requirement changes nothing else: the format
/// keeps its id, card-text policy and combat-damage timing.
pub proof fn lemma_discharge_keeps_other_rules(config: FormatConfig)
    requires
        config.custom_rules is Some,
    ensures
        ({
            let d = discharge_printing_policy(config);
            let before = config.custom_rules->0;
            let after = d.custom_rules->0;
            &&& d.custom_rules is Some
            &&& format_printing_policy(d) == HistoricalPrintingPolicy::Any
            &&& after.id == before.id
            &&& after.legality.legacy.card_text == before.legality.legacy.card_text
            &&& after.legality.legacy.damage_timing == before.legality.legacy.damage_timing
        }),
{
}

/// Swedish Old School admits a printing only when its set code is, up to
/// ASCII case, one of LEA, LEB, 2ED, ARN, ATQ, LEG, DRK or SUM, and its
/// language is English: any other edition, a reprint such as Chronicles or
/// Revised among them, is refused.
pub proof fn lemma_swedish_admits_only_original_english_printings(p: HistoricalPrinting)
    ensures
        printing_allowed(HistoricalPrintingPolicy::SwedishOriginal, p) ==> {
            &&& {
                ||| eq_ignore_ascii_case(p.set_code@, "LEA"@)
                ||| eq_ignore_ascii_case(p.set_code@, "LEB"@)
                ||| eq_ignore_ascii_case(p.set_code@, "2ED"@)
                ||| eq_ignore_ascii_case(p.set_code@, "ARN"@)
                ||| eq_ignore_ascii_case(p.set_code@, "ATQ"@)
                ||| eq_ignore_ascii_case(p.set_code@, "LEG"@)
                ||| eq_ignore_ascii_case(p.set_code@, "DRK"@)
                ||| eq_ignore_ascii_case(p.set_code@, "SUM"@)
            }
            &&& eq_ignore_ascii_case(p.language@, "en"@)
        },
{
    let c = p.set_code@;
    lemma_eq_ignore_ascii_case_symmetric(c, "LEA"@);
    lemma_eq_ignore_ascii_case_symmetric(c, "LEB"@);
    lemma_eq_ignore_ascii_case_symmetric(c, "2ED"@);
    lemma_eq_ignore_ascii_case_symmetric(c, "ARN"@);
    lemma_eq_ignore_ascii_case_symmetric(c, "ATQ"@);
    lemma_eq_ignore_ascii_case_symmetric(c, "LEG"@);
    lemma_eq_ignore_ascii_case_symmetric(c, "DRK"@);
    lemma_eq_ignore_ascii_case_symmetric(c, "SUM"@);
}

/// Under Swedish Old School, a copy whose selected printing is in the catalog
/// but comes from any edition other than the eight originals makes the
/// printing check report an error, so `validate_deck_with_printings` returns
/// `Err` without running the name checks.
pub proof fn lemma_non_original_edition_is_refused(
    db: CardDatabase,
    catalog: Map<Seq<char>, HistoricalPrinting>,
    names: Seq<Seq<char>>,
    ids: Seq<Seq<char>>,
    i: int,
)
    requires
        names.len() == ids.len(),
        0 <= i < ids.len(),
        catalog.contains_key(ids[i]),
        !eq_ignore_ascii_case(catalog[ids[i]].set_code@, "LEA"@),
        !eq_ignore_ascii_case(catalog[ids[i]].set_code@, "LEB"@),
        !eq_ignore_ascii_case(catalog[ids[i]].set_code@, "2ED"@),
        !eq_ignore_ascii_case(catalog[ids[i]].set_code@, "ARN"@),
        !eq_ignore_ascii_case(catalog[ids[i]].set_code@, "ATQ"@),
        !eq_ignore_ascii_case(catalog[ids[i]].set_code@, "LEG"@),
        !eq_ignore_ascii_case(catalog[ids[i]].set_code@, "DRK"@),
        !eq_ignore_ascii_case(catalog[ids[i]].set_code@, "SUM"@),
    ensures
        printing_errors(
            db,
            catalog,
            HistoricalPrintingPolicy::SwedishOriginal,
            names,
            ids,
            names.len(),
        ).len() > 0,
{
    lemma_swedish_admits_only_original_english_printings(catalog[ids[i]]);
    lemma_no_printing_errors_iff_all_legal(
        db,
        catalog,
        HistoricalPrintingPolicy::SwedishOriginal,
        names,
        ids,
        names.len(),
    );
    assert(!printing_legal_for(
        db,
        HistoricalPrintingPolicy::SwedishOriginal,
        names[i],
        catalog[ids[i]],
    ));
}

} // verus!
