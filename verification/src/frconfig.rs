//! The site-specific configuration of the outside wiki-markup parser for a
//! French-language encyclopedia dump: namespace aliases, extension tags,
//! link-trail characters, magic words, external-link protocols and redirect
//! magic words.

use vstd::prelude::*;

verus! {

/// The outside parser's configuration type; opaque to this crate, handed
/// back to the unverified parsing stage.
#[verifier::external_type_specification]
#[verifier::external_body]
pub struct ExConfiguration(parse_wiki_text::Configuration);

/// Relies on `parse_wiki_text::Configuration::new`: builds a parser
/// configuration from the given site-specific word lists.
#[verifier::external_body]
fn make_configuration(
    category_namespaces: &Vec<&str>,
    extension_tags: &Vec<&str>,
    file_namespaces: &Vec<&str>,
    link_trail: &str,
    magic_words: &Vec<&str>,
    protocols: &Vec<&str>,
    redirect_magic_words: &Vec<&str>,
) -> parse_wiki_text::Configuration {
    parse_wiki_text::Configuration::new(&parse_wiki_text::ConfigurationSource {
        category_namespaces,
        extension_tags,
        file_namespaces,
        link_trail,
        magic_words,
        protocols,
        redirect_magic_words,
    })
}

/// The parser configuration for the targeted wiki.
pub fn create_configuration() -> parse_wiki_text::Configuration {
    let category_namespaces: Vec<&str> = vec!["category", "catégorie"];
    let extension_tags: Vec<&str> = vec![
        "categorytree",
        "ce",
        "charinsert",
        "chem",
        "gallery",
        "graph",
        "hiero",
        "imagemap",
        "indicator",
        "inputbox",
        "mapframe",
        "maplink",
        "math",
        "nowiki",
        "poem",
        "pre",
        "ref",
        "references",
        "score",
        "section",
        "source",
        "syntaxhighlight",
        "templatedata",
        "templatestyles",
        "timeline",
    ];
    let file_namespaces: Vec<&str> = vec!["fichier", "file", "image"];
    let link_trail =
        "ABCDEFGHIJKLMNOPQRSTUVWXYZabcdefghijklmnopqrstuvwxyzÀÂÄÇÈÉÊËÎÏÔÖÙÛÜàâäçèéêëîïôöùûü";
    let magic_words: Vec<&str> = vec![
        "AUCUNEGALERIE",
        "AUCUNETDM",
        "AUCUNINDEX",
        "AUCUNLIENNOUVELLESECTION",
        "AUCUNSOMMAIRE",
        "CATCACHEE",
        "DISAMBIG",
        "EXPECTUNUSEDCATEGORY",
        "FORCERSOMMAIRE",
        "FORCERTDM",
        "FORCETOC",
        "HIDDENCAT",
        "INDEX",
        "LIENNOUVELLESECTION",
        "NEWSECTIONLINK",
        "NOCC",
        "NOCOLLABORATIONHUBTOC",
        "NOCONTENTCONVERT",
        "NOEDITSECTION",
        "NOGALLERY",
        "NOGLOBAL",
        "NOINDEX",
        "NONEWSECTIONLINK",
        "NOTC",
        "NOTITLECONVERT",
        "NOTOC",
        "REDIRECTIONSTATIQUE",
        "SANSCC",
        "SANSCONVERSIONCONTENU",
        "SANSCONVERSIONTITRE",
        "SANSCT",
        "SECTIONNONEDITABLE",
        "SOMMAIRE",
        "STATICREDIRECT",
        "TDM",
        "TOC",
    ];
    let protocols: Vec<&str> = vec![
        "//",
        "bitcoin:",
        "ftp://",
        "ftps://",
        "geo:",
        "git://",
        "gopher://",
        "http://",
        "https://",
        "irc://",
        "ircs://",
        "magnet:",
        "mailto:",
        "mms://",
        "news:",
        "nntp://",
        "redis://",
        "sftp://",
        "sip:",
        "sips:",
        "sms:",
        "ssh://",
        "svn://",
        "tel:",
        "telnet://",
        "urn:",
        "worldwind://",
        "xmpp:",
    ];
    let redirect_magic_words: Vec<&str> = vec!["REDIRECT", "REDIRECTION"];
    make_configuration(
        &category_namespaces,
        &extension_tags,
        &file_namespaces,
        link_trail,
        &magic_words,
        &protocols,
        &redirect_magic_words,
    )
}

} // verus!
