use messrust::analyze::cfg::{is_test_module, CfgMeta};
use syn::punctuated::Punctuated;

fn meta_of(meta: &syn::Meta) -> CfgMeta {
    match meta {
        syn::Meta::Path(path) => CfgMeta::Path(
            path.segments.iter().map(|s| s.ident.to_string()).collect::<Vec<_>>().join("::"),
        ),
        syn::Meta::NameValue(_) => CfgMeta::NameValue,
        syn::Meta::List(list) => CfgMeta::List {
            name: if list.path.segments.len() == 1 && list.path.leading_colon.is_none() {
                list.path.segments[0].ident.to_string()
            } else {
                String::new()
            },
            inner: list
                .parse_args_with(Punctuated::<syn::Meta, syn::token::Comma>::parse_terminated)
                .ok()
                .map(|metas| metas.iter().map(meta_of).collect()),
        },
    }
}

fn cfg_attributes(attrs: &[syn::Attribute]) -> Vec<Option<Vec<CfgMeta>>> {
    attrs
        .iter()
        .filter(|a| a.path().is_ident("cfg"))
        .map(|a| {
            a.parse_args_with(Punctuated::<syn::Meta, syn::token::Comma>::parse_terminated)
                .ok()
                .map(|metas| metas.iter().map(meta_of).collect())
        })
        .collect()
}

fn module_attrs(source: &str) -> Vec<Option<Vec<CfgMeta>>> {
    let module: syn::ItemMod = syn::parse_str(source).unwrap();
    cfg_attributes(&module.attrs)
}

#[test]
fn is_test_module_distinguishes_positive_and_negative_test_guards() {
    assert!(is_test_module(&module_attrs("#[cfg(test)] mod a;")));
    assert!(!is_test_module(&module_attrs("#[cfg(not(test))] mod b;")));
    assert!(is_test_module(&module_attrs("#[cfg(all(test, feature = \"foo\"))] mod c;")));
    assert!(!is_test_module(&module_attrs("#[cfg(all(not(test), feature = \"foo\"))] mod d;")));
    assert!(is_test_module(&module_attrs("#[cfg(test, feature = \"foo\")] mod e;")));
    assert!(!is_test_module(&module_attrs("#[cfg(feature = \"foo\")] mod f;")));
}

#[test]
fn modules_without_cfg_are_not_test_modules() {
    assert!(!is_test_module(&vec![]));
    assert!(is_test_module(&module_attrs("#[cfg(any(test, doc))] #[cfg(test)] mod g;")));
    assert!(is_test_module(&module_attrs("#[cfg(any(test, not(unix)))] mod h;")));
    assert!(!is_test_module(&module_attrs("#[cfg(any(test, unix))] mod i;")));
}
