pub mod address;
pub mod state;
pub mod lemmas;
pub mod initialize_fungible_child_entangler_v0;
pub mod initialize_fungible_entangler_v0;
