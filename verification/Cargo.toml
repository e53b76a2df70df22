[package]
name = "ars_webclient"
version = "0.1.0"
edition = "2021"
publish = false

[dependencies]
stylist = { version = "=0.13.0", features = ["parser", "yew_integration"] }
yew = { version = "=0.21.0" }
yew_icons = { version = "=0.8.0", features = [
    "BootstrapFileEarmarkImageFill",
    "BootstrapFileTextFill",
    "BootstrapGearFill",
    "BootstrapGithub",
    "BootstrapJournalText",
    "BootstrapTagsFill",
    "FontAwesomeSolidBolt",
    "FontAwesomeSolidBook",
    "FontAwesomeSolidEye",
    "FontAwesomeSolidEyeLowVision",
    "FontAwesomeSolidFeather",
    "FontAwesomeSolidFlaskVial",
    "FontAwesomeSolidHammer",
    "FontAwesomeSolidHatWizard",
    "FontAwesomeSolidPencil",
    "FontAwesomeSolidPlusMinus",
    "FontAwesomeSolidSignsPost",
    "FontAwesomeSolidTag",
    "FontAwesomeSolidTimeline",
    "HeroiconsMiniSolidLink",
    "HeroiconsSolidMap",
    "HeroiconsSolidSparkles",
    "LucideBoxes",
    "LucideCoins",
    "LucideDownload",
    "LucideMenu",
    "LucideUpload",
    "OcticonsX16",
] }
