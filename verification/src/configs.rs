//! The description a canvas is built from: an ordered structure of layer
//! slots and the named styles that the slots refer to.

use vstd::prelude::*;

pub mod structure;
pub mod style;

verus! {

/// Why a structure could not be built into a canvas.
#[derive(Debug)]
pub enum ConfigError {
    /// Style is not in the style collection.
    StyleNotInCollectionError(String),
    /// The style of an image layer names no image.
    ImageNotSetError(String),
    /// The style of a background layer names no color.
    ColorNotSetError(String),
}

/// What a configuration error holds: the name of the style at fault.
pub enum ConfigErrorView {
    StyleNotInCollectionError(Seq<char>),
    ImageNotSetError(Seq<char>),
    ColorNotSetError(Seq<char>),
}

impl View for ConfigError {
    type V = ConfigErrorView;

    open spec fn view(&self) -> ConfigErrorView {
        match self {
            ConfigError::StyleNotInCollectionError(name) => {
                ConfigErrorView::StyleNotInCollectionError(name@)
            },
            ConfigError::ImageNotSetError(name) => ConfigErrorView::ImageNotSetError(name@),
            ConfigError::ColorNotSetError(name) => ConfigErrorView::ColorNotSetError(name@),
        }
    }
}

impl ConfigErrorView {
    /// The error in words.
    pub open spec fn message(self) -> Seq<char> {
        match self {
            ConfigErrorView::StyleNotInCollectionError(name) => "Style \""@ + name
                + "\" is not in the style collection."@,
            ConfigErrorView::ImageNotSetError(name) => "Style \""@ + name
                + "\" sets no image for an image layer."@,
            ConfigErrorView::ColorNotSetError(name) => "Style \""@ + name
                + "\" sets no color for a background layer."@,
        }
    }
}

impl ConfigError {
    /// The error in words.
    pub fn message(&self) -> (r: String)
        ensures
            r@ == self@.message(),
    {
        let mut r = "Style \"".to_owned();
        match self {
            ConfigError::StyleNotInCollectionError(name) => {
                r.append(name.as_str());
                r.append("\" is not in the style collection.");
            },
            ConfigError::ImageNotSetError(name) => {
                r.append(name.as_str());
                r.append("\" sets no image for an image layer.");
            },
            ConfigError::ColorNotSetError(name) => {
                r.append(name.as_str());
                r.append("\" sets no color for a background layer.");
            },
        }
        r
    }
}

} // verus!
