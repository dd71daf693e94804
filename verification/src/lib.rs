mod catalog;
mod category;
mod errors;
mod laws;
mod mapper;
mod pipeline;
mod session;
mod text;
mod workspace;

pub use category::BuildMode;
pub use category::QueryCategory;
pub use category::TargetKind;
pub use catalog::candidates_spec;
pub use catalog::dedup_strings;
pub use catalog::enumerate;
pub use catalog::first_occurrences;
pub use catalog::lemma_first_occurrences_props;
pub use catalog::lemma_matching_names_sound;
pub use catalog::matching_names;
pub use catalog::names_a_matching_target;
pub use errors::QueryError;
pub use laws::lemma_abort_yields_cancelled;
pub use laws::lemma_accepted_outcome_nonempty;
pub use laws::lemma_catalog_matches_predicate;
pub use laws::lemma_catalog_no_duplicates;
pub use laws::lemma_first_candidate_round_trip;
pub use laws::lemma_parse_name_round_trip;
pub use laws::lemma_profile_catalog_complete;
pub use laws::lemma_single_select_cardinality;
pub use mapper::dispatch_outcome;
pub use mapper::dispatched;
pub use mapper::format_outcome;
pub use mapper::formatted;
pub use mapper::pair_result_model;
pub use mapper::text_result_model;
pub use pipeline::complete;
pub use pipeline::completed;
pub use pipeline::prepare;
pub use session::EventModel;
pub use session::OutcomeModel;
pub use session::PickerEvent;
pub use session::PickerRequest;
pub use session::SelectionOutcome;
pub use session::outcome_result_model;
pub use session::resolve_outcome;
pub use session::resolve_spec;
pub use workspace::TargetInfo;
pub use workspace::TargetModel;
pub use workspace::WorkspaceInfo;
pub use workspace::WorkspaceModel;
pub use text::eq_ignore_ascii_case;
pub use text::eq_ignore_ascii_case_spec;
pub use text::folded_scalar;
pub use text::is_line_safe;
pub use text::line_safe;
pub use text::join_all;
pub use text::joined;
