//! The decisions of the onboarding flow that touch neither the terminal nor
//! the network: which capabilities to request, and how to read the account
//! address out of a connect result.

use crate::crypto::AdminKey;
use crate::dialog::{AdminKeyGrant, ConnectParams, ConnectResult};
use crate::error::PortoError;
use vstd::prelude::*;
use vstd::string::StringExecFns;

verus! {

/// The connect capabilities requested during onboarding: always create an
/// account, and grant an admin key exactly when one was generated.
pub fn connect_params(admin_key: &Option<AdminKey>) -> (r: ConnectParams)
    ensures
        r.create_account == true,
        admin_key is None ==> r.grant_admins is None,
        admin_key matches Some(k) ==> r.grant_admins matches Some(g) && g@.len() == 1
            && g@[0].public_key@ == k.public_key@ && g@[0].key_type@ == k.key_type@,
{
    match admin_key {
        Some(k) => {
            let mut grants: Vec<AdminKeyGrant> = Vec::new();
            grants.push(
                AdminKeyGrant {
                    public_key: k.public_key.clone(),
                    key_type: k.key_type.clone(),
                },
            );
            ConnectParams { create_account: true, grant_admins: Some(grants) }
        },
        None => ConnectParams { create_account: true, grant_admins: None },
    }
}

/// The address of the first account of a connect result; a result that
/// carries no account at all means account creation failed.
pub fn first_account_address(result: &ConnectResult) -> (r: Result<String, PortoError>)
    ensures
        r is Ok <==> result.accounts@.len() > 0,
        r matches Ok(a) ==> a@ == result.accounts@[0].address@,
        r matches Err(e) ==> e matches PortoError::AccountCreationError(_),
{
    if result.accounts.len() == 0 {
        Err(PortoError::AccountCreationError(String::from_str("No accounts created")))
    } else {
        Ok(result.accounts[0].address.clone())
    }
}

} // verus!
