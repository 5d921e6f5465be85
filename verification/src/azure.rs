//! Trusted boundary to the Azure client libraries.
//!
//! The verified cache reaches the Azure SDK only through the items in this
//! module. Their contracts are assumed rather than proved; each doc comment
//! names the outside item relied on. The values involved (credentials,
//! clients, errors) are opaque to the verifier: nothing about their contents
//! is claimed here.

use vstd::prelude::*;

use azure_identity::{DefaultAzureCredential, DefaultAzureCredentialBuilder};
use azure_storage::StorageCredentials;
use azure_storage_datalake::clients::DataLakeClient;
use std::sync::Arc;

verus! {

/// Declares `azure_storage_datalake::clients::DataLakeClient`, the
/// authenticated connection object this library caches.
#[verifier::external_type_specification]
#[verifier::external_body]
pub struct ExDataLakeClient(DataLakeClient);

/// Declares `azure_storage::StorageCredentials`, the credential form the
/// Data Lake client factory consumes.
#[verifier::external_type_specification]
#[verifier::external_body]
pub struct ExStorageCredentials(StorageCredentials);

/// Declares `azure_identity::DefaultAzureCredential`, a chain of ambient
/// credential sources that refreshes its tokens before expiry.
#[verifier::external_type_specification]
#[verifier::external_body]
pub struct ExDefaultAzureCredential(DefaultAzureCredential);

/// Declares `azure_core::Error`, the error type of the Azure crates.
#[verifier::external_type_specification]
#[verifier::external_body]
pub struct ExAzureError(azure_core::Error);

/// Relies on `DefaultAzureCredentialBuilder::build` (azure_identity): it
/// assembles the ambient credential sources (environment, managed identity,
/// Azure CLI) into one refreshable credential, and fails exactly when no
/// source is available. With the builder's default options the
/// virtual-machine managed-identity source is always included, so in this
/// SDK version the call then never fails; the error path stays correct for
/// configurations that exclude sources. Whether it fails depends on the
/// process environment, so nothing is promised about which variant comes
/// back.
#[verifier::external_body]
pub(crate) fn acquire_default_credential() -> Result<DefaultAzureCredential, azure_core::Error> {
    DefaultAzureCredentialBuilder::default().build()
}

/// Relies on `StorageCredentials::token_credential` (azure_storage): it wraps
/// a token credential for use with storage clients and does not fail.
#[verifier::external_body]
pub(crate) fn storage_credentials_from(credential: DefaultAzureCredential) -> StorageCredentials {
    StorageCredentials::token_credential(Arc::new(credential))
}

/// Relies on `DataLakeClient::new` (azure_storage_datalake): it builds a
/// client bound to the given storage account and credentials. The
/// construction performs no I/O and does not fail for any input; it does
/// eagerly build the default HTTP transport, which azure_core aborts on if
/// the TLS backend cannot be initialized — an input-independent,
/// environment-only condition.
#[verifier::external_body]
pub(crate) fn new_data_lake_client(
    account: &String,
    credentials: StorageCredentials,
) -> DataLakeClient {
    DataLakeClient::new(account.clone(), credentials)
}

} // verus!
