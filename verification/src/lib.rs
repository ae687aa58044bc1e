//! Cold-start bootstrap orchestration for a node of a distributed
//! observability backend: per-domain metadata caches kept in sync by a
//! watch-then-snapshot pattern, leader-assignment tracking, idempotent
//! root-identity provisioning, and dependency-ordered launch of the
//! long-running background subsystems.


mod cache;
mod domain;
mod file_list;
mod identity;
mod leader;
mod node;
mod sequencer;
mod supervisor;

pub use cache::ChangeEvent;
pub use cache::EventOp;
pub use cache::LocalCache;
pub use cache::apply_all;
pub use cache::apply_one;
pub use cache::install_all;
pub use cache::lemma_no_lost_update;
pub use domain::Domain;
pub use domain::BootstrapError;
pub use file_list::FileListCache;
pub use file_list::FileListEntry;
pub use file_list::keyed_by_id;
pub use identity::IdentityStore;
pub use identity::User;
pub use identity::UserRole;
pub use identity::UserView;
pub use identity::ensure_root_identity;
pub use identity::ensure_spec;
pub use identity::lemma_root_bootstrap_idempotent;
pub use identity::root_user_view;
pub use leader::LeaderCache;
pub use leader::last_assignment;
pub use leader::lemma_leader_staleness;
pub use node::BootstrapInput;
pub use node::DomainLoad;
pub use node::FileLoad;
pub use node::LeaderLoad;
pub use node::Node;
pub use node::launched_subsystems;
pub use node::lemma_bootstrap_no_lost_update;
pub use node::lemma_domain_isolation;
pub use node::synced_view;
pub use sequencer::DomainFlags;
pub use sequencer::Phase;
pub use sequencer::Sequencer;
pub use sequencer::lemma_no_spawn_before_caches;
pub use supervisor::SubsystemHandle;
pub use supervisor::SubsystemKind;
pub use supervisor::Supervisor;
