//! The plugin host of a CAD application.

pub mod agree;
pub mod agreement_laws;
pub mod attributes;
pub mod batch_laws;
pub mod binding;
pub mod command;
pub mod command_laws;
pub mod constraint_laws;
pub mod creation_laws;
pub mod creation_rules;
pub mod dim_constraint;
pub mod dim_style_laws;
pub mod dim_styles;
pub mod dimension_rules;
pub mod document;
pub mod entities;
pub mod filing;
pub mod fresh;
pub mod geometry;
pub mod hatch_rules;
pub mod history_laws;
pub mod images;
pub mod layer_change_laws;
pub mod layer_laws;
pub mod layer_ops;
pub mod layers;
pub mod leader_rules;
pub mod mutation_laws;
pub mod mutation_rules;
pub mod naming;
pub mod normal_laws;
pub mod normalize;
pub mod outside;
pub mod plain;
pub mod plugin_state;
pub mod records;
pub mod reference_laws;
pub mod reference_rules;
pub mod scalar;
pub mod scene;
pub mod scene_laws;
pub mod script_laws;
pub mod scripting;
pub mod search;
pub mod session;
pub mod session_laws;
pub mod solid_laws;
pub mod solids;
pub mod studio;
pub mod style_change_laws;
pub mod style_laws;
pub mod style_ops;
pub mod style_uses;
pub mod styles;
pub mod table_ops;
pub mod table_rules;
pub mod text;
pub mod text_laws;
pub mod transaction;
pub mod transaction_laws;
pub mod xdata;
pub mod xdata_laws;
