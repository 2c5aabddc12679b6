//! Vendor credential profiles: a named credential/configuration set
//! for one external tool. At most one profile per tool is active; the
//! active profile's content is what the configuration synchronizer
//! materializes into the tool's native settings.

use vstd::prelude::*;

use crate::text::opt_string_view;

verus! {

/// A stored vendor profile.
#[derive(Debug, PartialEq)]
pub struct Vendor {
    pub id: i64,
    pub tool: String,
    pub name: String,
    pub vendor_key: Option<String>,
    pub base_url: String,
    pub token: String,
    pub model: Option<String>,
    pub config_json: Option<String>,
    pub is_active: bool,
    pub created_at: String,
    pub updated_at: String,
}

/// The mathematical model of a stored profile.
pub struct VendorModel {
    pub id: int,
    pub tool: Seq<char>,
    pub name: Seq<char>,
    pub vendor_key: Option<Seq<char>>,
    pub base_url: Seq<char>,
    pub token: Seq<char>,
    pub model: Option<Seq<char>>,
    pub config_json: Option<Seq<char>>,
    pub is_active: bool,
    pub created_at: Seq<char>,
    pub updated_at: Seq<char>,
}

impl View for Vendor {
    type V = VendorModel;

    open spec fn view(&self) -> VendorModel {
        VendorModel {
            id: self.id as int,
            tool: self.tool@,
            name: self.name@,
            vendor_key: opt_string_view(self.vendor_key),
            base_url: self.base_url@,
            token: self.token@,
            model: opt_string_view(self.model),
            config_json: opt_string_view(self.config_json),
            is_active: self.is_active,
            created_at: self.created_at@,
            updated_at: self.updated_at@,
        }
    }
}

/// The fields a caller supplies when creating or updating a profile.
pub struct VendorInput {
    pub name: String,
    pub vendor_key: Option<String>,
    pub base_url: String,
    pub token: String,
    pub model: Option<String>,
    pub config_json: Option<String>,
}

/// The mathematical model of a profile input.
pub struct VendorInputModel {
    pub name: Seq<char>,
    pub vendor_key: Option<Seq<char>>,
    pub base_url: Seq<char>,
    pub token: Seq<char>,
    pub model: Option<Seq<char>>,
    pub config_json: Option<Seq<char>>,
}

impl View for VendorInput {
    type V = VendorInputModel;

    open spec fn view(&self) -> VendorInputModel {
        VendorInputModel {
            name: self.name@,
            vendor_key: opt_string_view(self.vendor_key),
            base_url: self.base_url@,
            token: self.token@,
            model: opt_string_view(self.model),
            config_json: opt_string_view(self.config_json),
        }
    }
}

/// The model of an optional profile input.
pub open spec fn opt_input_view(o: Option<VendorInput>) -> Option<VendorInputModel> {
    match o {
        Some(i) => Some(i@),
        None => None,
    }
}

/// A copy of an optional owned string.
pub(crate) fn dup_opt_string(o: &Option<String>) -> (r: Option<String>)
    ensures
        opt_string_view(r) == opt_string_view(*o),
{
    match o {
        Some(s) => Some(s.clone()),
        None => None,
    }
}

impl Vendor {
    /// A field-for-field copy of this profile.
    pub fn duplicate(&self) -> (r: Vendor)
        ensures
            r@ == self@,
    {
        Vendor {
            id: self.id,
            tool: self.tool.clone(),
            name: self.name.clone(),
            vendor_key: dup_opt_string(&self.vendor_key),
            base_url: self.base_url.clone(),
            token: self.token.clone(),
            model: dup_opt_string(&self.model),
            config_json: dup_opt_string(&self.config_json),
            is_active: self.is_active,
            created_at: self.created_at.clone(),
            updated_at: self.updated_at.clone(),
        }
    }
}

} // verus!
